//! The result collection of a query, the restartable traversal over it,
//! and the borrowed message views it yields.
//!
//! The collection owns one engine message-cursor handle for its whole
//! lifetime. Each traversal request derives a fresh logical pass over the
//! same positions, starting at the first; a pass pulls one element at a
//! time, reading the position under the cursor before advancing it, and
//! ends for good when the cursor reports no valid position. Every element
//! is a message view whose lifetime is bounded by the collection's.

use core::marker::PhantomData;
use vstd::prelude::*;

use crate::c_text;
use crate::status::Status;
use crate::tags::Tags;

verus! {

/// What a traversal pass yields, as a function of the cursor
/// observations fed to it: the handles of the valid positions up to, and
/// not including, the first invalid one.
pub open spec fn pass_yield(events: Seq<(bool, u64)>) -> Seq<u64>
    decreases events.len(),
{
    if events.len() == 0 {
        Seq::empty()
    } else if !events[0].0 {
        Seq::empty()
    } else {
        seq![events[0].1] + pass_yield(events.drop_first())
    }
}

/// Appending one observation to an all-valid prefix extends the yield by
/// its handle when it is valid, and leaves the yield as it stands when it
/// is not.
proof fn lemma_pass_yield_push(events: Seq<(bool, u64)>, e: (bool, u64))
    requires
        forall|i: int| 0 <= i < events.len() ==> events[i].0,
    ensures
        e.0 ==> pass_yield(events.push(e)) == pass_yield(events).push(e.1),
        !e.0 ==> pass_yield(events.push(e)) == pass_yield(events),
    decreases events.len(),
{
    if events.len() == 0 {
        assert(events.push(e)[0] == e);
        assert(events.push(e).drop_first() =~= Seq::<(bool, u64)>::empty());
        assert(pass_yield(Seq::<(bool, u64)>::empty()) == Seq::<u64>::empty());
        if e.0 {
            assert(pass_yield(events.push(e)) == seq![e.1] + Seq::<u64>::empty());
            assert(seq![e.1] + Seq::<u64>::empty() =~= pass_yield(events).push(e.1));
        }
    } else {
        assert(events[0].0);
        assert(events.push(e)[0] == events[0]);
        assert(events.push(e).drop_first() =~= events.drop_first().push(e));
        assert(forall|i: int|
            0 <= i < events.drop_first().len() ==> events.drop_first()[i].0);
        lemma_pass_yield_push(events.drop_first(), e);
        if e.0 {
            assert(pass_yield(events.push(e)) =~= pass_yield(events).push(e.1));
        } else {
            assert(pass_yield(events.push(e)) =~= pass_yield(events));
        }
    }
}

/// The collection of all messages matching a query: an owning wrapper
/// for one engine message-cursor handle, borrowing the query it came
/// from. It may be traversed any number of times; each call of
/// [`Messages::iter`] derives a fresh pass over the same positions.
pub struct Messages<'q> {
    handle: u64,
    _owner: PhantomData<&'q ()>,
}

impl<'q> Messages<'q> {
    /// The engine cursor handle this collection owns.
    pub closed spec fn handle_id(self) -> u64 {
        self.handle
    }

    /// A live collection wraps a non-null handle.
    pub open spec fn wf(self) -> bool {
        self.handle_id() != 0
    }

    /// Wrap the message-cursor handle a successful search produced.
    pub(crate) fn from_handle(handle: u64) -> (m: Messages<'q>)
        ensures
            m.handle_id() == handle,
    {
        Messages { handle, _owner: PhantomData }
    }

    /// Derive a fresh traversal pass, starting at the first position.
    ///
    /// The pass borrows the collection, so no pass and no message pulled
    /// from one survives the collection's release. Only the freshly
    /// derived pass should be driven until it is dropped or exhausted:
    /// the underlying cursor is one stateful resource.
    pub fn iter(&self) -> (it: MessagesIter<'_>)
        ensures
            it.wf(),
            it.handle_id() == self.handle_id(),
            !it.done(),
            it.fed() == Seq::<(bool, u64)>::empty(),
            it.seen() == Seq::<u64>::empty(),
    {
        MessagesIter {
            handle: self.handle,
            done: false,
            fed: Ghost(Seq::empty()),
            seen: Ghost(Seq::empty()),
            _owner: PhantomData,
        }
    }

    /// A read-only view of the cursor handle, for driving the engine.
    pub fn handle(&self) -> (h: u64)
        ensures
            h == self.handle_id(),
    {
        self.handle
    }

    /// Surrender the cursor handle so the caller can release it.
    /// Consuming `self` ends every pass and every message borrowed from
    /// this collection, so the handle can be released at most once and no
    /// element survives the release.
    pub fn close(self) -> (h: u64)
        ensures
            h == self.handle_id(),
    {
        self.handle
    }
}

/// One lazy traversal pass over a collection's positions.
///
/// Pulling an element is tied one to one with advancing the cursor:
/// the caller reads the position under the cursor, then advances, and
/// hands both observations to [`MessagesIter::next`], so the element
/// reflects the pre-advance position. The pass records the observations
/// fed to it and latches finished at the first invalid one.
pub struct MessagesIter<'q> {
    handle: u64,
    done: bool,
    fed: Ghost<Seq<(bool, u64)>>,
    seen: Ghost<Seq<u64>>,
    _owner: PhantomData<&'q ()>,
}

impl<'q> MessagesIter<'q> {
    /// The engine cursor handle this pass walks.
    pub closed spec fn handle_id(self) -> u64 {
        self.handle
    }

    /// Whether the pass has ended.
    pub closed spec fn done(self) -> bool {
        self.done
    }

    /// The cursor observations consumed so far.
    pub closed spec fn fed(self) -> Seq<(bool, u64)> {
        self.fed@
    }

    /// The message handles yielded so far.
    pub closed spec fn seen(self) -> Seq<u64> {
        self.seen@
    }

    /// What a pass yields is a function of the observations alone: the
    /// elements seen so far are exactly [`pass_yield`] of the consumed
    /// observations, and a pass still running has consumed only valid
    /// ones.
    pub open spec fn wf(self) -> bool {
        &&& self.seen() == pass_yield(self.fed())
        &&& (!self.done() ==> forall|i: int| 0 <= i < self.fed().len() ==> self.fed()[i].0)
    }

    /// Whether the pass has ended.
    pub fn is_done(&self) -> (b: bool)
        ensures
            b == self.done(),
    {
        self.done
    }

    /// Pull the next element.
    ///
    /// The caller checks the cursor's validity, reads the message handle
    /// under it, advances the cursor, and hands the observations here. A
    /// finished pass yields nothing, consumes nothing, and stays
    /// finished; an invalid position finishes the pass; a valid one
    /// yields a fresh message view over the observed handle.
    pub fn next(&mut self, valid: bool, msg_handle: u64) -> (r: Option<Message<'q>>)
        requires
            old(self).wf(),
            valid ==> msg_handle != 0,
        ensures
            final(self).wf(),
            final(self).handle_id() == old(self).handle_id(),
            old(self).done() ==> r is None && *final(self) == *old(self),
            !old(self).done() && !valid ==> r is None && final(self).done(),
            !old(self).done() && valid ==> !final(self).done(),
            !old(self).done() ==> final(self).fed() == old(self).fed().push((valid, msg_handle)),
            !old(self).done() && !valid ==> final(self).seen() == old(self).seen(),
            !old(self).done() && valid ==> final(self).seen() == old(self).seen().push(
                msg_handle,
            ),
            !old(self).done() && valid ==> (r matches Some(m) && m.wf() && m.handle_id()
                == msg_handle && m.freeze_depth() == 0 && m.cached_id() is None),
    {
        if self.done {
            return None;
        }
        proof {
            lemma_pass_yield_push(self.fed@, (valid, msg_handle));
        }
        self.fed = Ghost(self.fed@.push((valid, msg_handle)));
        if !valid {
            self.done = true;
            None
        } else {
            self.seen = Ghost(self.seen@.push(msg_handle));
            Some(Message { handle: msg_handle, depth: 0, id_cache: None, _owner: PhantomData })
        }
    }
}

/// Restartability of traversal: what a pass yields is determined by the
/// cursor observations alone, so two passes over the same collection that
/// observe the same positions — as the engine promises when each pass is
/// derived afresh — yield the same elements, and in particular the same
/// count.
pub proof fn lemma_passes_agree<'a, 'b>(a: MessagesIter<'a>, b: MessagesIter<'b>)
    requires
        a.wf(),
        b.wf(),
        a.fed() == b.fed(),
    ensures
        a.seen() == b.seen(),
{
}

/// A borrowed view of one message under a collection's cursor. It is
/// never released through this layer, and its lifetime is bounded by the
/// collection it was pulled from.
///
/// The view keeps the freeze/thaw balance of the brackets opened through
/// it, so an unmatched thaw is refused before it reaches the engine.
pub struct Message<'q> {
    handle: u64,
    depth: u64,
    id_cache: Option<String>,
    _owner: PhantomData<&'q ()>,
}

impl<'q> Message<'q> {
    /// The engine message handle this view reads.
    pub closed spec fn handle_id(self) -> u64 {
        self.handle
    }

    /// How many freeze brackets opened through this view are unmatched.
    pub closed spec fn freeze_depth(self) -> u64 {
        self.depth
    }

    /// The identifier this view has retrieved, if it has.
    pub closed spec fn cached_id(self) -> Option<Seq<char>> {
        match self.id_cache {
            Some(s) => Some(s@),
            None => None,
        }
    }

    /// A live message view is a non-null handle.
    pub open spec fn wf(self) -> bool {
        self.handle_id() != 0
    }

    /// Add `tag` to the message in the backing store. The caller forwards
    /// the tag to the engine and hands back the reply, which is mapped to
    /// the uniform status contract: success, or the reported error.
    pub fn add_tag(&self, tag: &str, reply_code: u32) -> (r: Result<(), Status>)
        requires
            c_text(tag@),
        ensures
            r is Ok <==> reply_code == 0,
            r matches Err(e) ==> e == Status::of_code(reply_code as int) && e != Status::Success,
    {
        let st = Status::from_code(reply_code);
        if st.is_success() {
            Ok(())
        } else {
            Err(st)
        }
    }

    /// Remove `tag` from the message in the backing store; mapped like
    /// [`Message::add_tag`].
    pub fn remove_tag(&self, tag: &str, reply_code: u32) -> (r: Result<(), Status>)
        requires
            c_text(tag@),
        ensures
            r is Ok <==> reply_code == 0,
            r matches Err(e) ==> e == Status::of_code(reply_code as int) && e != Status::Success,
    {
        let st = Status::from_code(reply_code);
        if st.is_success() {
            Ok(())
        } else {
            Err(st)
        }
    }

    /// Open a freeze bracket: tag mutations made until the matching thaw
    /// become visible together. On a success reply one more bracket is
    /// unmatched; on any other reply the balance is unchanged and the
    /// mapped status is returned.
    pub fn freeze(&mut self, reply_code: u32) -> (r: Result<(), Status>)
        requires
            old(self).freeze_depth() < u64::MAX,
        ensures
            r is Ok <==> reply_code == 0,
            final(self).handle_id() == old(self).handle_id(),
            final(self).cached_id() == old(self).cached_id(),
            reply_code == 0 ==> final(self).freeze_depth() == old(self).freeze_depth() + 1,
            reply_code != 0 ==> final(self).freeze_depth() == old(self).freeze_depth(),
            r matches Err(e) ==> e == Status::of_code(reply_code as int) && e != Status::Success,
    {
        let st = Status::from_code(reply_code);
        if st.is_success() {
            self.depth = self.depth + 1;
            Ok(())
        } else {
            Err(st)
        }
    }

    /// Close a freeze bracket, synchronizing the deferred mutations into
    /// the backing store.
    ///
    /// A thaw without an unmatched freeze through this view is unbalanced
    /// and is refused with the unbalanced-freeze-thaw status, whatever
    /// the caller observed. With an unmatched freeze open, the engine's
    /// reply decides: success closes the bracket, anything else leaves
    /// the balance unchanged and returns the mapped status.
    pub fn thaw(&mut self, reply_code: u32) -> (r: Result<(), Status>)
        ensures
            final(self).handle_id() == old(self).handle_id(),
            final(self).cached_id() == old(self).cached_id(),
            old(self).freeze_depth() == 0 ==> (r matches Err(e) && e
                == Status::UnbalancedFreezeThaw) && final(self).freeze_depth() == 0,
            old(self).freeze_depth() > 0 ==> (r is Ok <==> reply_code == 0),
            old(self).freeze_depth() > 0 && reply_code == 0 ==> final(self).freeze_depth()
                == old(self).freeze_depth() - 1,
            old(self).freeze_depth() > 0 && reply_code != 0 ==> final(self).freeze_depth()
                == old(self).freeze_depth() && (r matches Err(e) && e == Status::of_code(
                reply_code as int,
            ) && e != Status::Success),
    {
        if self.depth == 0 {
            return Err(Status::UnbalancedFreezeThaw);
        }
        let st = Status::from_code(reply_code);
        if st.is_success() {
            self.depth = self.depth - 1;
            Ok(())
        } else {
            Err(st)
        }
    }

    /// The message's stable identifier.
    ///
    /// The caller reads the identifier from the engine — a call that
    /// always yields a valid identifier for a live handle — and hands it
    /// here as text. The first retrieval is kept, and every later call
    /// returns the kept identifier, so repeated calls on one view agree.
    pub fn message_id(&mut self, raw: &str) -> (id: String)
        ensures
            final(self).handle_id() == old(self).handle_id(),
            final(self).freeze_depth() == old(self).freeze_depth(),
            old(self).cached_id() matches Some(c) ==> id@ == c && final(self).cached_id()
                == Some(c),
            old(self).cached_id() is None ==> id@ == raw@ && final(self).cached_id() == Some(
                raw@,
            ),
    {
        match &self.id_cache {
            Some(s) => String::from_str(s.as_str()),
            None => {
                self.id_cache = Some(String::from_str(raw));
                String::from_str(raw)
            },
        }
    }

    /// Derive the sequence of tags on this message.
    ///
    /// The caller asks the engine for a tag cursor and hands back the
    /// handle word. A null word means the cursor could not be created and
    /// yields nothing — no tags available, not a hard error; any other
    /// yields a fresh sequence borrowed from this message.
    pub fn get_tags(&self, reply_handle: u64) -> (r: Option<Tags<'_>>)
        ensures
            r is Some <==> reply_handle != 0,
            r matches Some(t) ==> t.wf() && t.handle_id() == reply_handle && !t.done(),
    {
        Tags::from(reply_handle)
    }

    /// A read-only view of the handle, for driving the engine.
    pub fn handle(&self) -> (h: u64)
        ensures
            h == self.handle_id(),
    {
        self.handle
    }

    /// How many freeze brackets opened through this view are unmatched.
    pub fn frozen_depth(&self) -> (d: u64)
        ensures
            d == self.freeze_depth(),
    {
        self.depth
    }
}

} // verus!
