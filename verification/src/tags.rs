//! A lazy, single-pass, forward-only sequence of tag names read from a
//! live tag cursor owned by a parent message.
//!
//! Each pull reads the tag under the cursor, then advances it. The
//! sequence is not restartable: once the cursor reports no valid
//! position, or a tag that cannot be read as text, the sequence latches
//! exhausted and every later pull yields nothing.

use core::marker::PhantomData;
use vstd::prelude::*;

verus! {

/// A borrowed view of one engine tag cursor. The cursor is owned by the
/// message it was derived from, never released through this wrapper, and
/// the borrow bounds this value's lifetime by its parent's.
pub struct Tags<'m> {
    handle: u64,
    done: bool,
    _owner: PhantomData<&'m ()>,
}

impl<'m> Tags<'m> {
    /// The engine tag-cursor handle this view reads.
    pub closed spec fn handle_id(self) -> u64 {
        self.handle
    }

    /// Whether the sequence has latched exhausted.
    pub closed spec fn done(self) -> bool {
        self.done
    }

    /// A live tag cursor is a non-null handle.
    pub open spec fn wf(self) -> bool {
        self.handle_id() != 0
    }

    /// Wrap an engine tag-cursor handle. A null handle word yields
    /// nothing; any other yields a fresh, not yet exhausted sequence.
    pub fn from(handle: u64) -> (r: Option<Tags<'m>>)
        ensures
            r is Some <==> handle != 0,
            r matches Some(t) ==> t.wf() && t.handle_id() == handle && !t.done(),
    {
        if handle == 0 {
            None
        } else {
            Some(Tags { handle, done: false, _owner: PhantomData })
        }
    }

    /// Whether the sequence has latched exhausted.
    pub fn is_done(&self) -> (b: bool)
        ensures
            b == self.done(),
    {
        self.done
    }

    /// Pull the next tag name.
    ///
    /// The caller checks the cursor's validity, reads the tag under it as
    /// text where one is readable, advances the cursor, and hands both
    /// observations here. An exhausted sequence yields nothing and stays
    /// exhausted, whatever the caller observed: exhaustion is permanent.
    /// An invalid cursor position, or a tag that could not be read as
    /// text, exhausts the sequence.
    pub fn next(&mut self, valid: bool, tag: Option<String>) -> (r: Option<String>)
        ensures
            final(self).handle_id() == old(self).handle_id(),
            old(self).done() ==> r is None && final(self).done(),
            !old(self).done() && !valid ==> r is None && final(self).done(),
            !old(self).done() && valid && tag is None ==> r is None && final(self).done(),
            !old(self).done() && valid && tag is Some ==> r == tag && !final(self).done(),
    {
        if self.done {
            return None;
        }
        if !valid {
            self.done = true;
            return None;
        }
        match tag {
            None => {
                self.done = true;
                None
            },
            Some(t) => Some(t),
        }
    }
}

} // verus!
