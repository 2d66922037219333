use vstd::prelude::*;

pub mod audio_format;
pub mod buffer;
pub mod file;
pub mod playlist;
pub mod pointer_reference_counter;
pub mod sink;

pub use audio_format::{AudioFormat, ChannelLayout, SampleFormat, SampleType};
pub use buffer::DecodedBuffer;
pub use file::File;
pub use playlist::{FillMode, Playlist, PlaylistItem};
pub use pointer_reference_counter::{Destroy, PointerReferenceCounter};

verus! {

/// How much the native library logs.
#[derive(Clone, Copy, Debug, PartialEq, Eq, Structural)]
pub enum Log {
    Quiet,
    Error,
    Warning,
    Info,
}

/// The native severity number of each logging level.
pub open spec fn log_level_of(l: Log) -> int {
    match l {
        Log::Quiet => -8,
        Log::Error => 16,
        Log::Warning => 24,
        Log::Info => 32,
    }
}

impl Log {
    /// The native severity number of this level.
    pub fn level(&self) -> (r: i32)
        ensures
            r as int == log_level_of(*self),
    {
        match *self {
            Log::Quiet => -8,
            Log::Error => 16,
            Log::Warning => 24,
            Log::Info => 32,
        }
    }
}

/// A native status code as a result: negative codes are errors.
pub fn err_code_result(err_code: i32) -> (r: Result<(), i32>)
    ensures
        err_code >= 0 ==> r == Ok::<(), i32>(()),
        err_code < 0 ==> r == Err::<(), i32>(err_code),
{
    if err_code >= 0 {
        Ok(())
    } else {
        Err(err_code)
    }
}

} // verus!
