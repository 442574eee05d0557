//! A safe access layer over a handle-based mail-indexing engine.
//!
//! The engine hands out a tree of manually managed native handles
//! (database, query, message cursor, message, tag cursor), each with its
//! own deallocation rule. This crate models that tree as owned and
//! borrowed Rust values and verifies the lifecycle discipline: who may
//! destroy which handle, which values may not outlive their parent, and
//! how the lazy pull-based cursors behave. The native calls themselves
//! are performed outside this crate; every engine reply (a numeric
//! status, a handle word, a cursor validity flag, a string read from a
//! cursor) enters the verified layer as a plain value, and the layer
//! decides what each reply means.

pub mod db;
pub mod message;
pub mod query;
pub mod status;
pub mod tags;

use vstd::prelude::*;

verus! {

/// Text that can be handed to the engine as a null-terminated C string:
/// it contains no null character of its own.
pub open spec fn c_text(s: Seq<char>) -> bool {
    forall|i: int| 0 <= i < s.len() ==> s[i] != '\0'
}

} // verus!
