//! The expiration sweep: decide, for each record of one directory listing,
//! whether the file has expired (age strictly over the threshold and type
//! tag on the whitelist) and plan which records to delete.
//!
//! The caller runs the actual loop: it lists the directory, asks for the
//! plan, deletes the planned paths, sleeps, and repeats. A deletion failure
//! is reported by the caller and does not abort the sweep.

use vstd::prelude::*;
use crate::config::{Config, name_list_contains, list_contains};
use crate::listing::{kept_entries, record_of_entry};
use crate::listing::RawEntry;
use crate::record::FileRecord;

verus! {

/// A file has expired when its modification time is not in the future,
/// its age exceeds the threshold strictly, and its type tag is
/// whitelisted. A file exactly at the threshold age is retained.
pub open spec fn expired(r: FileRecord, now: u64, cfg: Config) -> bool {
    &&& r.modified <= now
    &&& now - r.modified > cfg.threshold_secs
    &&& name_list_contains(cfg.whitelist@, r.file_type@)
}

/// What one sweep does with one record.
#[derive(Debug, PartialEq, Eq, Structural)]
pub enum SweepDecision {
    /// Expired: delete the file.
    Delete,
    /// Not expired: keep the file.
    Retain,
    /// The modification time is after `now` (clock skew): report and skip,
    /// never delete.
    ClockSkew,
}

/// Decide what a sweep at time `now` does with `r`.
pub fn sweep_decision(r: &FileRecord, now: u64, cfg: &Config) -> (d: SweepDecision)
    ensures
        d is ClockSkew <==> r.modified > now,
        d is Delete <==> expired(*r, now, *cfg),
        d is Retain <==> (r.modified <= now && !expired(*r, now, *cfg)),
{
    if r.modified > now {
        SweepDecision::ClockSkew
    } else {
        let elapsed = now - r.modified;
        if elapsed > cfg.threshold_secs && list_contains(&cfg.whitelist, r.file_type.as_str()) {
            SweepDecision::Delete
        } else {
            SweepDecision::Retain
        }
    }
}

/// The indices, in increasing order, of the records of `records` that a
/// sweep at time `now` deletes.
pub open spec fn sweep_plan(records: Seq<FileRecord>, now: u64, cfg: Config) -> Seq<int>
    decreases records.len(),
{
    if records.len() == 0 {
        Seq::empty()
    } else {
        let prefix = sweep_plan(records.drop_last(), now, cfg);
        if expired(records.last(), now, cfg) {
            prefix.push(records.len() - 1)
        } else {
            prefix
        }
    }
}

/// An index is in the sweep plan exactly when its record has expired.
pub proof fn lemma_sweep_plan_membership(records: Seq<FileRecord>, now: u64, cfg: Config)
    ensures
        forall|j: int|
            sweep_plan(records, now, cfg).contains(j) <==> (0 <= j < records.len() && expired(
                records[j],
                now,
                cfg,
            )),
    decreases records.len(),
{
    if records.len() > 0 {
        lemma_sweep_plan_membership(records.drop_last(), now, cfg);
        let prefix = sweep_plan(records.drop_last(), now, cfg);
        let full = sweep_plan(records, now, cfg);
        assert forall|j: int| full.contains(j) implies (0 <= j < records.len() && expired(
            records[j],
            now,
            cfg,
        )) by {
            if expired(records.last(), now, cfg) && j != records.len() - 1 {
                assert(prefix.contains(j)) by {
                    let k = choose|k: int| 0 <= k < full.len() && full[k] == j;
                    assert(prefix[k] == j);
                }
            }
        }
        assert forall|j: int| 0 <= j < records.len() && expired(records[j], now, cfg) implies full
            .contains(j) by {
            if j < records.len() - 1 {
                assert(records.drop_last()[j] == records[j]);
                assert(prefix.contains(j));
                let k = choose|k: int| 0 <= k < prefix.len() && prefix[k] == j;
                assert(full[k] == j);
            } else {
                assert(full.last() == j);
            }
        }
    }
}

/// Compute the sweep plan for one listing: the indices of the records to
/// delete, in increasing order. An index is planned exactly when its
/// record has expired; in particular a record whose modification time lies
/// in the future, or whose type tag is off the whitelist, or whose age is
/// at or below the threshold, is never planned.
pub fn plan_sweep(records: &Vec<FileRecord>, now: u64, cfg: &Config) -> (plan: Vec<usize>)
    ensures
        plan@.map_values(|u: usize| u as int) == sweep_plan(records@, now, *cfg),
        forall|j: int|
            #![auto]
            0 <= j < plan@.len() ==> plan@[j] < records@.len() && expired(
                records@[plan@[j] as int],
                now,
                *cfg,
            ),
        forall|j: int|
            0 <= j < records@.len() && expired(records@[j], now, *cfg) ==> plan@.map_values(
                |u: usize| u as int,
            ).contains(j),
{
    let mut plan: Vec<usize> = Vec::new();
    let n = records.len();
    let mut i: usize = 0;
    while i < n
        invariant
            n == records@.len(),
            0 <= i <= n,
            plan@.map_values(|u: usize| u as int) == sweep_plan(records@.take(i as int), now, *cfg),
            forall|j: int| #![auto] 0 <= j < plan@.len() ==> plan@[j] < i,
        decreases n - i,
    {
        let d = sweep_decision(&records[i], now, cfg);
        proof {
            assert(records@.take(i + 1).drop_last() =~= records@.take(i as int));
            assert(records@.take(i + 1).last() == records@[i as int]);
        }
        if matches!(d, SweepDecision::Delete) {
            plan.push(i);
            proof {
                assert(plan@.map_values(|u: usize| u as int) =~= sweep_plan(
                    records@.take(i + 1),
                    now,
                    *cfg,
                ));
            }
        }
        i = i + 1;
    }
    proof {
        assert(records@.take(n as int) =~= records@);
        lemma_sweep_plan_membership(records@, now, *cfg);
        let planned = plan@.map_values(|u: usize| u as int);
        assert forall|j: int| #![auto] 0 <= j < plan@.len() implies plan@[j] < records@.len()
            && expired(records@[plan@[j] as int], now, *cfg) by {
            assert(planned.contains(planned[j]));
        }
    }
    plan
}

/// The records of one listing that a sweep at time `now` retains.
pub open spec fn retained_records(records: Seq<FileRecord>, now: u64, cfg: Config) -> Seq<
    FileRecord,
> {
    records.filter(|r: FileRecord| !expired(r, now, cfg))
}

/// A sweep is idempotent: sweeping, at the same time, the records that a
/// sweep retained plans no deletion at all.
pub proof fn lemma_sweep_idempotent(records: Seq<FileRecord>, now: u64, cfg: Config)
    ensures
        sweep_plan(retained_records(records, now, cfg), now, cfg) == Seq::<int>::empty(),
{
    let retained = retained_records(records, now, cfg);
    assert(forall|j: int| 0 <= j < retained.len() ==> !expired(#[trigger] retained[j], now, cfg))
        by {
        broadcast use vstd::seq_lib::group_filter_ensures;

    }
    lemma_no_expiry_empty_plan(retained, now, cfg);
}

/// A listing in which no record has expired gets an empty sweep plan.
pub proof fn lemma_no_expiry_empty_plan(records: Seq<FileRecord>, now: u64, cfg: Config)
    requires
        forall|j: int| 0 <= j < records.len() ==> !expired(#[trigger] records[j], now, cfg),
    ensures
        sweep_plan(records, now, cfg) == Seq::<int>::empty(),
    decreases records.len(),
{
    if records.len() > 0 {
        lemma_no_expiry_empty_plan(records.drop_last(), now, cfg);
    }
}

/// Expiration is monotone in time: a file expired now is expired at every
/// later instant too. Together with `lemma_sweep_plan_membership` this
/// means an expired file stays planned in every later sweep until it is
/// deleted, so exactly one sweep — the first to list it expired — deletes
/// it, and a file at or below the threshold age is planned by none.
pub proof fn lemma_expiration_monotone(r: FileRecord, now: u64, later: u64, cfg: Config)
    requires
        expired(r, now, cfg),
        now <= later,
    ensures
        expired(r, later, cfg),
{
}

/// A filename on the ignored list is never deleted: in a sweep plan over
/// records built from a directory listing, no planned record bears that
/// name, whatever its age or type.
pub proof fn lemma_ignored_never_deleted(
    records: Seq<FileRecord>,
    entries: Seq<RawEntry>,
    cfg: Config,
    now: u64,
    name: Seq<char>,
)
    requires
        name_list_contains(cfg.ignored@, name),
        records.len() == kept_entries(entries, cfg.ignored@).len(),
        forall|i: int|
            0 <= i < records.len() ==> record_of_entry(
                #[trigger] records[i],
                kept_entries(entries, cfg.ignored@)[i],
            ),
    ensures
        forall|j: int| sweep_plan(records, now, cfg).contains(j) ==> records[j].name@ != name,
{
    lemma_sweep_plan_membership(records, now, cfg);
    crate::listing::lemma_ignored_never_listed(entries, cfg.ignored@, name);
    assert forall|j: int| sweep_plan(records, now, cfg).contains(j) implies records[j].name@
        != name by {
        assert(record_of_entry(records[j], kept_entries(entries, cfg.ignored@)[j]));
    }
}

/// The type filter is sound on both sides: a file below or at the
/// threshold age is never deleted whatever its type, and a file whose type
/// tag is off the whitelist is never deleted whatever its age.
pub proof fn lemma_type_filter(r: FileRecord, now: u64, cfg: Config)
    ensures
        r.modified <= now && now - r.modified <= cfg.threshold_secs ==> !expired(r, now, cfg),
        !name_list_contains(cfg.whitelist@, r.file_type@) ==> !expired(r, now, cfg),
        r.modified > now ==> !expired(r, now, cfg),
{
}

} // verus!
