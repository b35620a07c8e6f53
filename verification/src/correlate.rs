//! The correlator: resolve a raw filesystem event's path fragment to the
//! one directory entry it names, and produce that entry's full record.
//!
//! Event paths are compared by base filename. Some platforms deliver the
//! event's filename with a one-character prefix artifact, so a candidate
//! matches when its name equals the event's base name directly, or, as a
//! fallback, equals the event's base name with its first character
//! dropped. If no candidate matches (the file vanished before correlation
//! ran, or the listing failed and is empty), the result is the
//! well-defined unresolved record, which callers must treat as "could not
//! resolve" and suppress, not display.

use vstd::prelude::*;
use crate::record::FileRecord;
use crate::strutil::{str_eq, suffix_after_last, suffix_after_last_str};

verus! {

/// The base filename of a path: the part after the last `/`, or the whole
/// path when it has no separator.
pub open spec fn spec_base_name(path: Seq<char>) -> Seq<char> {
    suffix_after_last(path, '/')
}

/// Extract the base filename of a path.
pub fn base_name(path: &str) -> (b: String)
    ensures
        b@ == spec_base_name(path@),
{
    suffix_after_last_str(path, '/')
}

/// The event's base name names this candidate: either directly, or after
/// dropping the event name's first character (the observed one-character
/// prefix artifact).
pub open spec fn names_match(event_name: Seq<char>, entry_name: Seq<char>) -> bool {
    ||| event_name == entry_name
    ||| (event_name.len() >= 1 && event_name.subrange(1, event_name.len() as int) == entry_name)
}

/// Decide whether the event's base name names this candidate.
pub fn names_match_exec(event_name: &str, entry_name: &str) -> (r: bool)
    ensures
        r == names_match(event_name@, entry_name@),
{
    if str_eq(event_name, entry_name) {
        return true;
    }
    let n = event_name.unicode_len();
    if n >= 1 {
        let stripped = event_name.substring_char(1, n);
        if str_eq(stripped, entry_name) {
            return true;
        }
    }
    false
}

/// Whether some candidate's name matches the event's base name.
pub open spec fn has_match(event_name: Seq<char>, entries: Seq<FileRecord>) -> bool {
    exists|i: int| 0 <= i < entries.len() && names_match(event_name, entries[i].name@)
}

/// The index of the first candidate whose name matches the event's base
/// name (meaningful only when `has_match` holds).
pub open spec fn first_match(event_name: Seq<char>, entries: Seq<FileRecord>) -> int {
    choose|i: int|
        0 <= i < entries.len() && names_match(event_name, entries[i].name@) && forall|j: int|
            0 <= j < i ==> !names_match(event_name, entries[j].name@)
}

/// When a match exists, `first_match` is the least matching index.
pub proof fn lemma_first_match(event_name: Seq<char>, entries: Seq<FileRecord>)
    requires
        has_match(event_name, entries),
    ensures
        0 <= first_match(event_name, entries) < entries.len(),
        names_match(event_name, entries[first_match(event_name, entries)].name@),
        forall|j: int|
            0 <= j < first_match(event_name, entries) ==> !names_match(
                event_name,
                entries[j].name@,
            ),
    decreases entries.len(),
{
    let k = choose|i: int| 0 <= i < entries.len() && names_match(event_name, entries[i].name@);
    lemma_least_match_exists(event_name, entries, k);
}

/// Below any matching index there is a least matching index, and it
/// witnesses `first_match`.
proof fn lemma_least_match_exists(event_name: Seq<char>, entries: Seq<FileRecord>, k: int)
    requires
        0 <= k < entries.len(),
        names_match(event_name, entries[k].name@),
    ensures
        0 <= first_match(event_name, entries) < entries.len(),
        names_match(event_name, entries[first_match(event_name, entries)].name@),
        forall|j: int|
            0 <= j < first_match(event_name, entries) ==> !names_match(
                event_name,
                entries[j].name@,
            ),
    decreases k,
{
    if exists|j: int| 0 <= j < k && names_match(event_name, entries[j].name@) {
        let j = choose|j: int| 0 <= j < k && names_match(event_name, entries[j].name@);
        lemma_least_match_exists(event_name, entries, j);
    } else {
        assert(forall|j: int| 0 <= j < k ==> !names_match(event_name, entries[j].name@));
        let i = first_match(event_name, entries);
        assert(0 <= i < entries.len() && names_match(event_name, entries[i].name@) && forall|
            j: int,
        |
            0 <= j < i ==> !names_match(event_name, entries[j].name@));
    }
}

/// Resolve an event path against the current directory listing.
///
/// Returns the record of the first candidate whose name the event's base
/// name matches; when no candidate matches, returns the unresolved record
/// (empty name and path, zero size, both timestamps `now`).
pub fn correlate(event_path: &str, entries: &Vec<FileRecord>, now: u64) -> (r: FileRecord)
    ensures
        has_match(spec_base_name(event_path@), entries@) ==> r == entries@[first_match(
            spec_base_name(event_path@),
            entries@,
        )],
        !has_match(spec_base_name(event_path@), entries@) ==> {
            &&& r.is_unresolved()
            &&& r.path@.len() == 0
            &&& r.size == 0
            &&& r.created == now
            &&& r.modified == now
        },
{
    let event_name = base_name(event_path);
    let n = entries.len();
    let mut i: usize = 0;
    while i < n
        invariant
            n == entries@.len(),
            0 <= i <= n,
            event_name@ == spec_base_name(event_path@),
            forall|j: int| 0 <= j < i ==> !names_match(event_name@, entries@[j].name@),
        decreases n - i,
    {
        if names_match_exec(event_name.as_str(), entries[i].name.as_str()) {
            proof {
                lemma_least_match_exists(event_name@, entries@, i as int);
                assert(first_match(event_name@, entries@) == i as int) by {
                    let f = first_match(event_name@, entries@);
                    if f < i {
                        assert(!names_match(event_name@, entries@[f].name@));
                    }
                    if f > i {
                        assert(!names_match(event_name@, entries@[i as int].name@));
                    }
                }
            }
            return entries[i].duplicate();
        }
        i = i + 1;
    }
    FileRecord::unresolved(now)
}

} // verus!
