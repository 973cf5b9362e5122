//! An owned-or-borrowed wrapper over a native in-memory byte-stream handle.
//!
//! The buffer decides who releases the handle, and turns what the native
//! layer reports during a read, a write or an allocation into one error
//! model. The native calls themselves are made by the caller, which hands
//! each result back and is told what to do next.

pub mod bio;
pub mod error;
pub mod step;

pub use bio::{MemBio, MemBioView};
pub use error::BioError;
pub use step::{AllocEvent, Next, ReadEvent, WriteEvent, read_step, request_len, write_step};
