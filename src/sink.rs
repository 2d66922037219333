use vstd::prelude::*;

use crate::err_code_result;

verus! {

/// Whether a sink or an encoder is attached, and to which playlist. The
/// native object must be detached before it is destroyed, and only an
/// attached one is detached.
pub struct Attachment {
    playlist: Option<u64>,
}

impl View for Attachment {
    type V = Option<u64>;

    closed spec fn view(&self) -> Option<u64> {
        self.playlist
    }
}

impl Attachment {
    /// A new consumer is detached.
    pub fn new() -> (r: Self)
        ensures
            r@.is_none(),
    {
        Attachment { playlist: None }
    }

    /// The playlist attached to, if any.
    pub fn playlist(&self) -> (r: Option<u64>)
        ensures
            r == self@,
    {
        self.playlist
    }

    /// Records the native answer `err_code` to attaching to `playlist`: a
    /// negative code is a refusal, returned as the error, and changes
    /// nothing.
    pub fn attach(&mut self, playlist: u64, err_code: i32) -> (r: Result<(), i32>)
        ensures
            r == (if err_code >= 0 {
                Ok::<(), i32>(())
            } else {
                Err::<(), i32>(err_code)
            }),
            r.is_ok() ==> final(self)@ == Some(playlist),
            r.is_err() ==> final(self)@ == old(self)@,
    {
        let r = err_code_result(err_code);
        if r.is_ok() {
            self.playlist = Some(playlist);
        }
        r
    }

    /// Marks the consumer detached. Returns whether it was attached, and so
    /// whether the native detach is owed.
    pub fn detach(&mut self) -> (r: bool)
        ensures
            r == old(self)@.is_some(),
            final(self)@.is_none(),
    {
        let was = self.playlist.is_some();
        self.playlist = None;
        was
    }
}

} // verus!
