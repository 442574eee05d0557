//! Queries against a database: a query borrows the database it was
//! created from, carries its exclusion-tag configuration, and executes
//! searches that produce an owned message collection.

use core::marker::PhantomData;
use vstd::prelude::*;

use crate::c_text;
use crate::db::Database;
use crate::message::Messages;
use crate::status::Status;

verus! {

/// How results carrying an excluded tag are treated.
#[derive(Debug, Clone, Copy, PartialEq, Eq, Structural)]
pub enum Exclude {
    /// Omit excluded results, flagging the rest.
    True,
    /// Include excluded results without flagging them.
    False,
    /// Omit all excluded results.
    All,
    /// Include excluded results, flagging the ones that match.
    Flags,
}

impl Exclude {
    /// The engine's numeric representation of this policy.
    pub open spec fn as_code(self) -> int {
        match self {
            Exclude::Flags => 0,
            Exclude::True => 1,
            Exclude::False => 2,
            Exclude::All => 3,
        }
    }

    /// The numeric policy word handed to the engine.
    pub fn code(self) -> (c: u32)
        ensures
            c as int == self.as_code(),
    {
        match self {
            Exclude::Flags => 0,
            Exclude::True => 1,
            Exclude::False => 2,
            Exclude::All => 3,
        }
    }
}

/// An owning wrapper for one engine query handle, borrowing the
/// [`Database`] it was created from: the borrow bounds the query's
/// lifetime by the database's, so a query can never outlive its root.
pub struct Query<'d> {
    handle: u64,
    policy: Option<Exclude>,
    excluded: Ghost<Set<Seq<char>>>,
    _db: PhantomData<&'d Database>,
}

impl<'d> Query<'d> {
    /// The engine handle this wrapper owns.
    pub closed spec fn handle_id(self) -> u64 {
        self.handle
    }

    /// The exclusion policy configured so far, if any was set.
    pub closed spec fn policy_set(self) -> Option<Exclude> {
        self.policy
    }

    /// The set of tags registered for exclusion so far.
    pub closed spec fn excluded(self) -> Set<Seq<char>> {
        self.excluded@
    }

    /// A live query wraps a non-null handle.
    pub open spec fn wf(self) -> bool {
        self.handle_id() != 0
    }

    /// Wrap an engine query handle bound to the database it came from.
    /// A null handle word yields nothing; any other yields a fresh query
    /// with no exclusion configuration.
    pub fn from(db: &'d Database, handle: u64) -> (r: Option<Query<'d>>)
        ensures
            r is Some <==> handle != 0,
            r matches Some(q) ==> q.wf() && q.handle_id() == handle && q.policy_set() is None
                && q.excluded() == Set::<Seq<char>>::empty(),
    {
        if handle == 0 {
            None
        } else {
            Some(
                Query {
                    handle,
                    policy: None,
                    excluded: Ghost(Set::empty()),
                    _db: PhantomData,
                },
            )
        }
    }

    /// Build a query over the borrowed database.
    ///
    /// The caller converts the query text to the engine's form, performs
    /// the creation call, and hands back the handle the engine returned.
    /// The engine treats creation as infallible for well-formed text, so
    /// a null handle is a fail-fast condition the caller rules out before
    /// entering, not a recoverable outcome.
    pub fn create(db: &'d Database, query: &str, handle: u64) -> (q: Query<'d>)
        requires
            c_text(query@),
            handle != 0,
        ensures
            q.wf(),
            q.handle_id() == handle,
            q.policy_set() is None,
            q.excluded() == Set::<Seq<char>>::empty(),
    {
        Query { handle, policy: None, excluded: Ghost(Set::empty()), _db: PhantomData }
    }

    /// Register a tag to be excluded from results by default; the
    /// exclusion is ignored where the tag appears explicitly in the query
    /// text. The caller forwards the tag to the engine and hands back the
    /// reply. On success the tag joins the exclusion set, so registering
    /// a tag twice is not an error and leaves one entry; on any other
    /// reply the configuration is unchanged and the mapped status is
    /// returned.
    pub fn add_tag_exclude(&mut self, tag: &str, reply_code: u32) -> (r: Result<(), Status>)
        requires
            c_text(tag@),
        ensures
            r is Ok <==> reply_code == 0,
            final(self).handle_id() == old(self).handle_id(),
            final(self).policy_set() == old(self).policy_set(),
            reply_code == 0 ==> final(self).excluded() == old(self).excluded().insert(tag@),
            reply_code != 0 ==> final(self).excluded() == old(self).excluded(),
            r matches Err(e) ==> e == Status::of_code(reply_code as int) && e != Status::Success,
    {
        let st = Status::from_code(reply_code);
        if st.is_success() {
            self.excluded = Ghost(self.excluded@.insert(tag@));
            Ok(())
        } else {
            Err(st)
        }
    }

    /// Record which exclusion policy the engine was configured with.
    /// Pure configuration: the engine call cannot fail, so nothing is
    /// returned.
    pub fn set_omit_excluded(&mut self, exclude: Exclude)
        ensures
            final(self).handle_id() == old(self).handle_id(),
            final(self).excluded() == old(self).excluded(),
            final(self).policy_set() == Some(exclude),
    {
        self.policy = Some(exclude);
    }

    /// Decide the outcome of executing the query.
    ///
    /// The caller performs the engine's search call and hands back the
    /// reply: the numeric status and the message-cursor handle the engine
    /// wrote. A success reply yields an owning collection over the
    /// cursor; any other reply yields the mapped status and allocates
    /// nothing. The engine writes a non-null cursor whenever it reports
    /// success.
    pub fn search_messages(&self, reply_code: u32, reply_handle: u64) -> (r: Result<
        Messages<'_>,
        Status,
    >)
        requires
            reply_code == 0 ==> reply_handle != 0,
        ensures
            r is Ok <==> reply_code == 0,
            r matches Ok(m) ==> m.wf() && m.handle_id() == reply_handle,
            r matches Err(e) ==> e == Status::of_code(reply_code as int) && e != Status::Success,
    {
        let st = Status::from_code(reply_code);
        if st.is_success() {
            Ok(Messages::from_handle(reply_handle))
        } else {
            Err(st)
        }
    }

    /// A read-only view of the handle, for driving the engine.
    pub fn handle(&self) -> (h: u64)
        ensures
            h == self.handle_id(),
    {
        self.handle
    }

    /// The exclusion policy configured so far, if any was set.
    pub fn policy(&self) -> (p: Option<Exclude>)
        ensures
            p == self.policy_set(),
    {
        self.policy
    }

    /// Surrender the handle so the caller can release it. Consuming
    /// `self` ends every collection borrowed from this query, so the
    /// handle can be released at most once.
    pub fn close(self) -> (h: u64)
        ensures
            h == self.handle_id(),
    {
        self.handle
    }
}

} // verus!
