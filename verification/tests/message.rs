//! Message views: tag mutation, freeze/thaw bracketing, identifier
//! stability, and tag listing.

use notmuch_rs::db::{Database, OpenMode};
use notmuch_rs::status::Status;
use notmuch_rs::query::Query;

/// Adding a tag then listing tags includes it exactly once; removing it
/// then listing tags excludes it. The engine stores the tag set; the
/// layer forwards each mutation's status and passes each listed tag
/// through once.
#[test]
fn tag_add_then_remove() {
    let db = Database::open(OpenMode::ReadWrite, 0, 0x1000).unwrap();
    let query = Query::create(&db, "from:jdoe@example", 0x2000);
    let msgs = query.search_messages(0, 0x3000).unwrap();
    let mut it = msgs.iter();
    let m = it.next(true, 0x4000).unwrap();

    assert!(m.add_tag("todo", 0).is_ok());

    // the engine now lists the tag exactly once
    let mut tags = m.get_tags(0x5000).unwrap();
    let mut listed: Vec<String> = Vec::new();
    listed.extend(tags.next(true, Some("inbox".to_string())));
    listed.extend(tags.next(true, Some("todo".to_string())));
    assert!(tags.next(false, None).is_none());
    assert_eq!(1, listed.iter().filter(|t| t.as_str() == "todo").count());

    assert!(m.remove_tag("todo", 0).is_ok());

    // after removal the listing no longer carries it
    let mut tags = m.get_tags(0x5000).unwrap();
    let mut listed: Vec<String> = Vec::new();
    listed.extend(tags.next(true, Some("inbox".to_string())));
    assert!(tags.next(false, None).is_none());
    assert_eq!(0, listed.iter().filter(|t| t.as_str() == "todo").count());
}

/// Tag mutations map the engine's error replies to typed statuses.
#[test]
fn tag_mutation_errors() {
    let db = Database::open(OpenMode::ReadWrite, 0, 0x1000).unwrap();
    let query = Query::create(&db, "from:jdoe@example", 0x2000);
    let msgs = query.search_messages(0, 0x3000).unwrap();
    let mut it = msgs.iter();
    let m = it.next(true, 0x4000).unwrap();

    assert_eq!(Err(Status::ReadOnlyDatabase), m.add_tag("todo", 2));
    assert_eq!(Err(Status::TagTooLong), m.add_tag("todo", 8));
    assert_eq!(Err(Status::NullPointer), m.remove_tag("todo", 7));
}

/// Freeze, then two tag mutations, then thaw: every step succeeds and
/// both mutations are forwarded; a second thaw with no unmatched freeze
/// yields the unbalanced-freeze-thaw status.
#[test]
fn freeze_mutate_thaw_balance() {
    let db = Database::open(OpenMode::ReadWrite, 0, 0x1000).unwrap();
    let query = Query::create(&db, "from:jdoe@example", 0x2000);
    let msgs = query.search_messages(0, 0x3000).unwrap();
    let mut it = msgs.iter();
    let mut m = it.next(true, 0x4000).unwrap();

    assert!(m.freeze(0).is_ok());
    assert_eq!(1, m.frozen_depth());
    assert!(m.add_tag("todo", 0).is_ok());
    assert!(m.remove_tag("inbox", 0).is_ok());
    assert!(m.thaw(0).is_ok());
    assert_eq!(0, m.frozen_depth());

    // the engine now reports both mutations
    let mut tags = m.get_tags(0x5000).unwrap();
    assert_eq!(
        Some("todo".to_string()),
        tags.next(true, Some("todo".to_string()))
    );
    assert!(tags.next(false, None).is_none());

    assert_eq!(Err(Status::UnbalancedFreezeThaw), m.thaw(9));
}

/// A freeze the engine refuses leaves the balance unchanged, and an
/// unmatched thaw is refused whatever the engine replied.
#[test]
fn freeze_refused() {
    let db = Database::open(OpenMode::ReadWrite, 0, 0x1000).unwrap();
    let query = Query::create(&db, "from:jdoe@example", 0x2000);
    let msgs = query.search_messages(0, 0x3000).unwrap();
    let mut it = msgs.iter();
    let mut m = it.next(true, 0x4000).unwrap();

    assert_eq!(Err(Status::ReadOnlyDatabase), m.freeze(2));
    assert_eq!(0, m.frozen_depth());
    assert_eq!(Err(Status::UnbalancedFreezeThaw), m.thaw(0));
}

/// The identifier is stable across repeated calls on one view.
#[test]
fn message_id_stable() {
    let db = Database::open(OpenMode::ReadOnly, 0, 0x1000).unwrap();
    let query = Query::create(&db, "from:jdoe@example", 0x2000);
    let msgs = query.search_messages(0, 0x3000).unwrap();
    let mut it = msgs.iter();
    let mut m = it.next(true, 0x4000).unwrap();

    let first = m.message_id("1234@example");
    let second = m.message_id("1234@example");
    assert_eq!("1234@example", first);
    assert_eq!(first, second);
}

/// A tag cursor the engine could not create lists as no tags, not as an
/// error.
#[test]
fn get_tags_null_cursor() {
    let db = Database::open(OpenMode::ReadOnly, 0, 0x1000).unwrap();
    let query = Query::create(&db, "from:jdoe@example", 0x2000);
    let msgs = query.search_messages(0, 0x3000).unwrap();
    let mut it = msgs.iter();
    let m = it.next(true, 0x4000).unwrap();

    assert!(m.get_tags(0).is_none());
    assert!(m.get_tags(0x5000).is_some());
}
