//! The watcher's event dispatch: classify each raw filesystem event, and
//! build the notification text for the events that warrant one.
//!
//! Access, modify, "other" and "any" events are explicitly ignored. A
//! create event for a regular file is correlated against the current
//! listing and announced by filename; a correlation that resolved nothing
//! is suppressed rather than announced. A remove event is announced
//! directory-scoped, since the removed file's identity no longer exists.
//! The caller owns the event subscription and the notification display.

use vstd::prelude::*;
use crate::correlate::{correlate, first_match, has_match, spec_base_name};
use crate::record::FileRecord;

verus! {

/// The kind of a raw filesystem event.
#[derive(Debug, Clone, Copy, PartialEq, Eq, Structural)]
pub enum EventKind {
    /// A file was read or its access metadata touched.
    Access,
    /// A file or directory was created.
    Create,
    /// A file's contents or metadata changed.
    Modify,
    /// A file or directory was removed.
    Remove,
    /// A kind the platform reports outside the categories above.
    Other,
    /// An unclassified event.
    Any,
}

/// What the watcher does with one event.
#[derive(Debug, Clone, Copy, PartialEq, Eq, Structural)]
pub enum WatchAction {
    /// Nothing to announce.
    Ignore,
    /// Correlate the event path and announce the created file.
    NotifyCreate,
    /// Announce a removal, scoped to the watched directory.
    NotifyRemove,
}

/// Classify one event: only a create of a non-directory and a remove are
/// announced; everything else is ignored.
pub fn dispatch_event(kind: EventKind, primary_is_dir: bool) -> (a: WatchAction)
    ensures
        a == WatchAction::NotifyCreate <==> (kind == EventKind::Create && !primary_is_dir),
        a == WatchAction::NotifyRemove <==> kind == EventKind::Remove,
        a == WatchAction::Ignore <==> !(kind == EventKind::Remove || (kind == EventKind::Create
            && !primary_is_dir)),
{
    match kind {
        EventKind::Create => if primary_is_dir {
            WatchAction::Ignore
        } else {
            WatchAction::NotifyCreate
        },
        EventKind::Remove => WatchAction::NotifyRemove,
        EventKind::Access => WatchAction::Ignore,
        EventKind::Modify => WatchAction::Ignore,
        EventKind::Other => WatchAction::Ignore,
        EventKind::Any => WatchAction::Ignore,
    }
}

/// The text announcing a created file.
pub fn created_message(name: &str) -> (m: String)
    ensures
        m@ == name@ + " was created"@,
{
    let mut m = name.to_owned();
    m.append(" was created");
    m
}

/// The text announcing a removal from the watched directory.
pub fn removed_message(dir: &str) -> (m: String)
    ensures
        m@ == "A file was removed from "@ + dir@,
{
    let mut m = "A file was removed from ".to_owned();
    m.append(dir);
    m
}

/// Handle a create event: correlate its path against the current listing
/// and return the record and announcement, or `None` when the event names
/// a directory or resolves to no listed file (an unresolved correlation is
/// suppressed, never displayed).
pub fn handle_create_event(
    event_path: &str,
    primary_is_dir: bool,
    entries: &Vec<FileRecord>,
    now: u64,
) -> (res: Option<(FileRecord, String)>)
    ensures
        ({
            let base = spec_base_name(event_path@);
            &&& primary_is_dir ==> res is None
            &&& !primary_is_dir && !has_match(base, entries@) ==> res is None
            &&& !primary_is_dir && has_match(base, entries@) ==> {
                let rec = entries@[first_match(base, entries@)];
                if rec.name@.len() == 0 {
                    res is None
                } else {
                    res matches Some(p) && p.0 == rec && p.1@ == rec.name@ + " was created"@
                }
            }
        }),
{
    if primary_is_dir {
        return None;
    }
    let rec = correlate(event_path, entries, now);
    if rec.name.as_str().is_empty() {
        return None;
    }
    let msg = created_message(rec.name.as_str());
    Some((rec, msg))
}

} // verus!
