//! Building the directory listing: turn raw entries (name, path, whether
//! the entry is a directory, and its metadata if it could be read) into
//! `FileRecord`s, skipping directories, ignored filenames, and entries
//! whose metadata could not be read.
//!
//! The caller reads the directory and each entry's metadata; a metadata
//! read may fail when the file vanishes between listing and stat, and such
//! an entry is skipped and counted, never fatal.

use vstd::prelude::*;
use crate::config::{Config, name_list_contains};
use crate::record::FileRecord;
use crate::strutil::suffix_after_last;

verus! {

/// Metadata of one directory entry, as read by the caller.
#[derive(Debug, Clone, Copy)]
pub struct EntryMeta {
    /// Creation time, in seconds.
    pub created: u64,
    /// Last-modification time, in seconds.
    pub modified: u64,
    /// Size in bytes.
    pub size: u64,
}

/// One raw directory entry, before filtering.
#[derive(Debug)]
pub struct RawEntry {
    /// Base filename of the entry.
    pub name: String,
    /// Full path of the entry.
    pub path: String,
    /// Whether the entry is a directory.
    pub is_dir: bool,
    /// The entry's metadata, or `None` when reading it failed.
    pub meta: Option<EntryMeta>,
}

/// An entry belongs in the listing when it is not a directory, has a
/// non-empty name that is not ignored, and its metadata could be read.
pub open spec fn listable(e: RawEntry, ignored: Seq<String>) -> bool {
    &&& !e.is_dir
    &&& e.meta is Some
    &&& e.name@.len() > 0
    &&& !name_list_contains(ignored, e.name@)
}

/// The record `r` is the snapshot of the raw entry `e`.
pub open spec fn record_of_entry(r: FileRecord, e: RawEntry) -> bool {
    &&& r.name == e.name
    &&& r.path == e.path
    &&& e.meta matches Some(m) && r.created == m.created && r.modified == m.modified && r.size
        == m.size
    &&& r.file_type@ == suffix_after_last(e.name@, '.')
}

/// The subsequence of `entries` that belongs in the listing, in order.
pub open spec fn kept_entries(entries: Seq<RawEntry>, ignored: Seq<String>) -> Seq<RawEntry> {
    entries.filter(|e: RawEntry| listable(e, ignored))
}

/// How many entries were skipped only because their metadata could not be
/// read (they were files, named, and not ignored).
pub open spec fn unreadable_count(entries: Seq<RawEntry>, ignored: Seq<String>) -> int
    decreases entries.len(),
{
    if entries.len() == 0 {
        0
    } else {
        unreadable_count(entries.drop_last(), ignored) + if (!entries.last().is_dir
            && entries.last().meta is None && entries.last().name@.len() > 0
            && !name_list_contains(ignored, entries.last().name@)) {
            1int
        } else {
            0int
        }
    }
}

/// Build the listing from raw entries: one record per listable entry, in
/// order, and the count of entries skipped because their metadata could
/// not be read (for the caller to report as a warning).
pub fn build_listing(entries: Vec<RawEntry>, cfg: &Config) -> (out: (Vec<FileRecord>, usize))
    requires
        entries@.len() <= usize::MAX,
    ensures
        out.0@.len() == kept_entries(entries@, cfg.ignored@).len(),
        forall|i: int|
            0 <= i < out.0@.len() ==> record_of_entry(
                #[trigger] out.0@[i],
                kept_entries(entries@, cfg.ignored@)[i],
            ),
        forall|i: int| 0 <= i < out.0@.len() ==> (#[trigger] out.0@[i]).wf(),
        out.1 == unreadable_count(entries@, cfg.ignored@),
{
    let ghost all = entries@;
    let mut out: Vec<FileRecord> = Vec::new();
    let mut skipped: usize = 0;
    let mut entries = entries;
    let n = entries.len();
    let mut i: usize = 0;
    proof {
        reveal(Seq::filter);
        assert(kept_entries(all.take(0), cfg.ignored@) =~= Seq::<RawEntry>::empty());
    }
    while i < n
        invariant
            n == all.len(),
            entries@ =~= all,
            0 <= i <= n,
            out@.len() == kept_entries(all.take(i as int), cfg.ignored@).len(),
            forall|k: int|
                0 <= k < out@.len() ==> record_of_entry(
                    #[trigger] out@[k],
                    kept_entries(all.take(i as int), cfg.ignored@)[k],
                ),
            forall|k: int| 0 <= k < out@.len() ==> (#[trigger] out@[k]).wf(),
            skipped == unreadable_count(all.take(i as int), cfg.ignored@),
            skipped <= i,
        decreases n - i,
    {
        proof {
            reveal(Seq::filter);
            assert(all.take(i + 1).drop_last() =~= all.take(i as int));
            assert(all.take(i + 1).last() == all[i as int]);
        }
        let e = &entries[i];
        if !e.is_dir && !e.name.as_str().is_empty() {
            let is_ignored = crate::config::list_contains(&cfg.ignored, e.name.as_str());
            if !is_ignored {
                match e.meta {
                    Some(m) => {
                        let r = FileRecord::new(
                            e.name.clone(),
                            e.path.clone(),
                            m.created,
                            m.modified,
                            m.size,
                        );
                        out.push(r);
                        proof {
                            reveal(Seq::filter);
                            let kept = kept_entries(all.take(i + 1), cfg.ignored@);
                            assert(kept =~= kept_entries(all.take(i as int), cfg.ignored@).push(
                                all[i as int],
                            ));
                        }
                    },
                    None => {
                        skipped = skipped + 1;
                        proof {
                            reveal(Seq::filter);
                            assert(kept_entries(all.take(i + 1), cfg.ignored@) =~= kept_entries(
                                all.take(i as int),
                                cfg.ignored@,
                            ));
                        }
                    },
                }
            } else {
                proof {
                    reveal(Seq::filter);
                    assert(kept_entries(all.take(i + 1), cfg.ignored@) =~= kept_entries(
                        all.take(i as int),
                        cfg.ignored@,
                    ));
                }
            }
        } else {
            proof {
                reveal(Seq::filter);
                assert(kept_entries(all.take(i + 1), cfg.ignored@) =~= kept_entries(
                    all.take(i as int),
                    cfg.ignored@,
                ));
            }
        }
        i = i + 1;
    }
    proof {
        assert(all.take(n as int) =~= all);
    }
    (out, skipped)
}

/// A filename on the ignored list never appears in a listing: every kept
/// entry has some other name.
pub proof fn lemma_ignored_never_listed(entries: Seq<RawEntry>, ignored: Seq<String>, name: Seq<
    char,
>)
    requires
        name_list_contains(ignored, name),
    ensures
        forall|j: int|
            0 <= j < kept_entries(entries, ignored).len() ==> (#[trigger] kept_entries(
                entries,
                ignored,
            )[j]).name@ != name,
{
    let kept = kept_entries(entries, ignored);
    assert forall|j: int| 0 <= j < kept.len() implies (#[trigger] kept[j]).name@ != name by {
        broadcast use vstd::seq_lib::group_filter_ensures;

        assert(listable(kept[j], ignored));
    }
}

} // verus!
