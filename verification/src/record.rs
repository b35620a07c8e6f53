//! `FileRecord`: a snapshot of one filesystem entry, built freshly on each
//! directory listing or event correlation and never mutated afterwards.
//!
//! Timestamps are plain seconds (monotone-comparable instants handed in by
//! the caller, e.g. seconds since the epoch); the type tag is the substring
//! of the name after the last `.`, or the whole name when there is no dot.

use vstd::prelude::*;
use crate::strutil::{suffix_after_last, suffix_after_last_str};

verus! {

/// A snapshot of one filesystem entry.
#[derive(Debug)]
pub struct FileRecord {
    /// Base filename, without path separators. Empty only in the
    /// "unresolved" record that correlation returns when no entry matches.
    pub name: String,
    /// Full path used for operations on the file.
    pub path: String,
    /// Creation time, in seconds.
    pub created: u64,
    /// Last-modification time, in seconds.
    pub modified: u64,
    /// Size in bytes.
    pub size: u64,
    /// Type tag derived from `name`: the part after the last `.`,
    /// or the whole name when there is no dot.
    pub file_type: String,
}

impl FileRecord {
    /// The type tag is always the one derived from the name.
    pub open spec fn wf(self) -> bool {
        self.file_type@ == suffix_after_last(self.name@, '.')
    }

    /// An empty name marks the record that stands for "no entry matched":
    /// callers must suppress notifications for it rather than display it.
    pub open spec fn is_unresolved(self) -> bool {
        self.name@.len() == 0
    }

    /// Build a record for an existing entry, deriving the type tag
    /// from the name.
    pub fn new(name: String, path: String, created: u64, modified: u64, size: u64) -> (r:
        FileRecord)
        requires
            name@.len() > 0,
        ensures
            r.name == name,
            r.path == path,
            r.created == created,
            r.modified == modified,
            r.size == size,
            r.wf(),
            !r.is_unresolved(),
    {
        let file_type = file_type_of(name.as_str());
        FileRecord { name, path, created, modified, size, file_type }
    }

    /// The well-defined "unknown" record: empty name and path, zero size,
    /// both timestamps set to `now`.
    pub fn unresolved(now: u64) -> (r: FileRecord)
        ensures
            r.name@.len() == 0,
            r.path@.len() == 0,
            r.created == now,
            r.modified == now,
            r.size == 0,
            r.file_type@.len() == 0,
            r.wf(),
            r.is_unresolved(),
    {
        let r = FileRecord {
            name: String::new(),
            path: String::new(),
            created: now,
            modified: now,
            size: 0,
            file_type: String::new(),
        };
        proof {
            assert(suffix_after_last(r.name@, '.') =~= r.name@);
        }
        r
    }

    /// A field-for-field copy.
    pub fn duplicate(&self) -> (r: FileRecord)
        ensures
            r == *self,
    {
        FileRecord {
            name: self.name.clone(),
            path: self.path.clone(),
            created: self.created,
            modified: self.modified,
            size: self.size,
            file_type: self.file_type.clone(),
        }
    }
}

/// The type tag of a filename: the part after the last `.`, or the whole
/// name when there is no dot (so an extensionless file reports its whole
/// name as its type — a documented quirk that whitelist semantics rely on).
pub fn file_type_of(name: &str) -> (t: String)
    ensures
        t@ == suffix_after_last(name@, '.'),
{
    suffix_after_last_str(name, '.')
}

} // verus!
