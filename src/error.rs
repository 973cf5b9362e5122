use vstd::prelude::*;

verus! {

/// The ways an operation on a memory stream can fail.
#[derive(Clone, Debug, PartialEq, Eq)]
pub enum BioError {
    /// The native allocator returned no stream; carries the native error state.
    Allocation(String),
    /// Nothing is buffered and no more bytes will ever arrive.
    EndOfStream,
    /// The native read failed for a reason other than end of stream.
    Read(String),
    /// The native write did not take every byte it was handed.
    Write(String),
}

} // verus!
