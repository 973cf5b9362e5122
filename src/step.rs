use vstd::prelude::*;
use crate::error::BioError;

verus! {

/// What the caller must do next on behalf of an operation: ask the native
/// stream whether it is at end of stream, take the native error state now
/// (before any other native call can overwrite it), or finish with a result.
#[derive(Debug, PartialEq, Eq)]
pub enum Next<T> {
    QueryEof,
    CaptureError,
    Done(Result<T, BioError>),
}

/// What the native layer reported during an allocation.
#[derive(Clone, Debug, PartialEq, Eq)]
pub enum AllocEvent<H> {
    /// The allocator returned a handle, or `None` for a null one.
    Allocated(Option<H>),
    /// The formatted native error state, taken after a failed allocation.
    ErrorCaptured(String),
}

/// What the native layer reported during a read.
#[derive(Clone, Debug, PartialEq, Eq)]
pub enum ReadEvent {
    /// The native read returned this value.
    Transferred(i32),
    /// The native end-of-stream query returned this value.
    EofQueried(bool),
    /// The formatted native error state, taken after a failed read.
    ErrorCaptured(String),
}

/// What the native layer reported during a write.
#[derive(Clone, Debug, PartialEq, Eq)]
pub enum WriteEvent {
    /// The native write returned this value.
    Transferred(i32),
    /// The formatted native error state, taken after a failed write.
    ErrorCaptured(String),
}

/// The length handed to the native layer for a slice of `len` bytes: the
/// native calls take a C `int`, so longer slices are offered in part.
pub open spec fn native_len(len: nat) -> int {
    if len > i32::MAX {
        i32::MAX as int
    } else {
        len as int
    }
}

/// A read: a positive native result is the count of bytes placed at the
/// front of the destination; otherwise the stream is asked whether it is at
/// its end, which ends the read with `EndOfStream`, and if not the native
/// error state becomes the detail of a `Read` error.
pub open spec fn read_next(ev: ReadEvent) -> Next<usize> {
    match ev {
        ReadEvent::Transferred(ret) => if ret > 0 {
            Next::Done(Ok(ret as usize))
        } else {
            Next::QueryEof
        },
        ReadEvent::EofQueried(at_eof) => if at_eof {
            Next::Done(Err(BioError::EndOfStream))
        } else {
            Next::CaptureError
        },
        ReadEvent::ErrorCaptured(detail) => Next::Done(Err(BioError::Read(detail))),
    }
}

/// A write of `len` bytes: it succeeds only if the native layer reports
/// exactly `len` bytes taken; anything else, a short write included, takes the
/// native error state as the detail of a `Write` error.
pub open spec fn write_next(len: nat, ev: WriteEvent) -> Next<()> {
    match ev {
        WriteEvent::Transferred(ret) => if ret as int == len as int {
            Next::Done(Ok(()))
        } else {
            Next::CaptureError
        },
        WriteEvent::ErrorCaptured(detail) => Next::Done(Err(BioError::Write(detail))),
    }
}

/// A read that the native layer answers with no bytes, on a stream at its
/// end, fails with `EndOfStream`; a read error of any other cause never does.
pub proof fn lemma_end_of_stream_signalled(ret: i32, detail: String)
    requires
        ret <= 0,
    ensures
        read_next(ReadEvent::Transferred(ret)) is QueryEof,
        read_next(ReadEvent::EofQueried(true)) == Next::<usize>::Done(Err(BioError::EndOfStream)),
        read_next(ReadEvent::ErrorCaptured(detail)) != Next::<usize>::Done(
            Err(BioError::EndOfStream),
        ),
{
}

/// A write that the native layer reports as taking fewer bytes than asked
/// fails, with the native error state as its detail; it is never reported
/// as a success.
pub proof fn lemma_short_write_rejected(len: usize, ret: i32, detail: String)
    requires
        0 <= ret < len,
    ensures
        write_next(len as nat, WriteEvent::Transferred(ret)) is CaptureError,
        write_next(len as nat, WriteEvent::ErrorCaptured(detail)) == Next::<()>::Done(
            Err(BioError::Write(detail)),
        ),
{
}

/// Bytes that fit in one native call pass through unchanged: a write of `n`
/// bytes is offered whole and succeeds when the native layer takes them all,
/// and a read that the native layer answers with `n` bytes returns `n`.
pub proof fn lemma_full_transfer_passes_through(n: usize)
    requires
        0 < n <= i32::MAX,
    ensures
        native_len(n as nat) == n,
        write_next(n as nat, WriteEvent::Transferred(n as i32)) == Next::<()>::Done(Ok(())),
        read_next(ReadEvent::Transferred(n as i32)) == Next::<usize>::Done(Ok(n)),
{
}

/// The length to hand the native read or write for a slice of `len` bytes.
pub fn request_len(len: usize) -> (r: i32)
    ensures
        r as int == native_len(len as nat),
        r >= 0,
{
    if len > i32::MAX as usize {
        i32::MAX
    } else {
        len as i32
    }
}

/// Decides what follows a native report during a read.
pub fn read_step(ev: ReadEvent) -> (r: Next<usize>)
    ensures
        r == read_next(ev),
{
    match ev {
        ReadEvent::Transferred(ret) => if ret > 0 {
            Next::Done(Ok(ret as usize))
        } else {
            Next::QueryEof
        },
        ReadEvent::EofQueried(at_eof) => if at_eof {
            Next::Done(Err(BioError::EndOfStream))
        } else {
            Next::CaptureError
        },
        ReadEvent::ErrorCaptured(detail) => Next::Done(Err(BioError::Read(detail))),
    }
}

/// Decides what follows a native report during a write of `len` bytes.
pub fn write_step(len: usize, ev: WriteEvent) -> (r: Next<()>)
    ensures
        r == write_next(len as nat, ev),
{
    match ev {
        WriteEvent::Transferred(ret) => if ret >= 0 && ret as usize == len {
            Next::Done(Ok(()))
        } else {
            Next::CaptureError
        },
        WriteEvent::ErrorCaptured(detail) => Next::Done(Err(BioError::Write(detail))),
    }
}

} // verus!
