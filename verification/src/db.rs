//! The root of the handle tree: an owning wrapper for one engine
//! database handle.
//!
//! The caller performs the native open call and hands its reply here;
//! [`Database::open`] decides whether the reply yields an owning wrapper
//! or a typed error. While a `Database` value lives, queries borrow it;
//! releasing the handle consumes the value, so no descendant can be
//! built from, or observe, a released database.

use vstd::prelude::*;

use crate::status::Status;

verus! {

/// Should the database be opened in read-only or read-write mode.
#[derive(Debug, Clone, Copy, PartialEq, Eq, Structural)]
pub enum OpenMode {
    /// Open the database for reading only.
    ReadOnly,
    /// Open the database for reading and writing.
    ReadWrite,
}

impl OpenMode {
    /// The engine's numeric representation of this mode.
    pub open spec fn as_code(self) -> int {
        match self {
            OpenMode::ReadOnly => 0,
            OpenMode::ReadWrite => 1,
        }
    }

    /// The numeric mode word handed to the engine's open call.
    pub fn code(self) -> (c: u32)
        ensures
            c as int == self.as_code(),
    {
        match self {
            OpenMode::ReadOnly => 0,
            OpenMode::ReadWrite => 1,
        }
    }
}

/// An owning wrapper for one engine database handle.
///
/// Exactly one `Database` value holds the handle, and [`Database::close`]
/// consumes the value, so destruction rights are claimed exactly once.
pub struct Database {
    handle: u64,
    mode: OpenMode,
}

impl Database {
    /// The engine handle this wrapper owns.
    pub closed spec fn handle_id(self) -> u64 {
        self.handle
    }

    /// The mode the database was opened in.
    pub closed spec fn open_mode(self) -> OpenMode {
        self.mode
    }

    /// A live database wraps a non-null handle.
    pub open spec fn wf(self) -> bool {
        self.handle_id() != 0
    }

    /// Decide the outcome of an open request.
    ///
    /// The caller performs the engine's open call on a path and a mode
    /// and hands back the reply: the numeric status and the handle word
    /// the engine wrote. A success reply yields the owning wrapper; any
    /// other reply yields the mapped status and holds no handle. The
    /// engine writes a non-null handle whenever it reports success,
    /// which is the one precondition here; no reply makes this fail.
    pub fn open(mode: OpenMode, reply_code: u32, reply_handle: u64) -> (r: Result<Database, Status>)
        requires
            reply_code == 0 ==> reply_handle != 0,
        ensures
            r is Ok <==> reply_code == 0,
            r matches Ok(db) ==> db.wf() && db.handle_id() == reply_handle && db.open_mode()
                == mode,
            r matches Err(e) ==> e == Status::of_code(reply_code as int) && e != Status::Success,
    {
        let st = Status::from_code(reply_code);
        if st.is_success() {
            Ok(Database { handle: reply_handle, mode })
        } else {
            Err(st)
        }
    }

    /// A read-only view of the handle, for deriving queries.
    pub fn handle(&self) -> (h: u64)
        ensures
            h == self.handle_id(),
    {
        self.handle
    }

    /// The mode the database was opened in.
    pub fn mode(&self) -> (m: OpenMode)
        ensures
            m == self.open_mode(),
    {
        self.mode
    }

    /// Surrender the handle so the caller can release it.
    ///
    /// Consuming `self` ends every borrow derived from this database, so
    /// the handle can be released at most once and nothing built on the
    /// database survives the release.
    pub fn close(self) -> (h: u64)
        ensures
            h == self.handle_id(),
    {
        self.handle
    }
}

} // verus!
