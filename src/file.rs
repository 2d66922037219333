use vstd::prelude::*;

use crate::pointer_reference_counter::PointerReferenceCounter;

verus! {

pub const TAG_MATCH_CASE: i32 = 1;

/// The native flags of a metadata lookup or edit.
pub fn metadata_flags(case_sensitive: bool) -> (r: i32)
    ensures
        r == (if case_sensitive {
            TAG_MATCH_CASE
        } else {
            0
        }),
{
    if case_sensitive {
        TAG_MATCH_CASE
    } else {
        0
    }
}

/// An open native file, known by its identity. Each `File` value is one
/// owner in the registry; it is moved, never copied.
pub struct File {
    id: u64,
}

impl View for File {
    type V = u64;

    closed spec fn view(&self) -> u64 {
        self.id
    }
}

impl File {
    /// Takes ownership of what the native open returned: `0` (no file) gives
    /// `None`; any other identity is registered as one more owner.
    pub fn open(native: u64, rc: &mut PointerReferenceCounter) -> (r: Option<File>)
        requires
            old(rc).wf(),
            old(rc)@.count(native) < usize::MAX,
        ensures
            final(rc).wf(),
            native == 0 ==> r.is_none() && final(rc)@ == old(rc)@,
            native != 0 ==> r.is_some() && r.unwrap()@ == native && final(rc)@ == old(rc)@.insert(
                native,
            ),
    {
        if native == 0 {
            None
        } else {
            rc.incr(native);
            Some(File { id: native })
        }
    }

    /// The native identity of this file.
    pub fn id(&self) -> (r: u64)
        ensures
            r == self@,
    {
        self.id
    }

    /// Gives up this owner's reference. Returns `true` when it was the last
    /// one: the caller then closes the native file.
    pub fn close(self, rc: &mut PointerReferenceCounter) -> (last: bool)
        requires
            old(rc).wf(),
            old(rc)@.count(self@) >= 1,
        ensures
            final(rc).wf(),
            final(rc)@ == old(rc)@.remove(self@),
            last == (old(rc)@.count(self@) == 1),
    {
        rc.decr(self.id)
    }
}

} // verus!
