//! The legacy version inferencer.
//!
//! Stores created before version tracking existed carry no marker. Their
//! schema version is inferred from the physical shape of the schema: each
//! published migration has a structural marker — a (table, column) pair its
//! change first introduced — and, because migrations only add structure, the
//! newest marker present identifies the version. A store with no marker at
//! all is version 0: brand new, or older than every marker.

use vstd::prelude::*;
use crate::errors::StoreError;
use crate::registry::MIGRATION_COUNT;
use crate::sqlite::column_exists;

verus! {

/// A structural marker tied to one historical migration: the (table, column)
/// pair that the migration at position `version` first introduced.
#[derive(Clone, Copy)]
pub struct ProbeEntry {
    pub table: &'static str,
    pub column: &'static str,
    pub version: usize,
}

/// The table probed for the marker of `position`.
pub open spec fn probe_table(position: int) -> Seq<char> {
    if position == 1 {
        "encounter"@
    } else if position == 2 {
        "encounter"@
    } else if position == 3 {
        "encounter"@
    } else if position == 4 {
        "encounter"@
    } else if position == 5 {
        "entity"@
    } else if position == 6 {
        "encounter"@
    } else if position == 7 {
        "encounter"@
    } else if position == 8 {
        "entity"@
    } else if position == 9 {
        "entity"@
    } else if position == 10 {
        "entity"@
    } else if position == 11 {
        "encounter_preview"@
    } else if position == 12 {
        "encounter_search_data"@
    } else if position == 13 {
        "encounter"@
    } else if position == 14 {
        "sync_logs"@
    } else if position == 15 {
        "entity"@
    } else {
        Seq::empty()
    }
}

/// The column probed for the marker of `position`.
pub open spec fn probe_column(position: int) -> Seq<char> {
    if position == 1 {
        "id"@
    } else if position == 2 {
        "misc"@
    } else if position == 3 {
        "difficulty"@
    } else if position == 4 {
        "version"@
    } else if position == 5 {
        "dps"@
    } else if position == 6 {
        "boss_only_damage"@
    } else if position == 7 {
        "total_shielding"@
    } else if position == 8 {
        "character_id"@
    } else if position == 9 {
        "engravings"@
    } else if position == 10 {
        "gear_hash"@
    } else if position == 11 {
        "id"@
    } else if position == 12 {
        "id"@
    } else if position == 13 {
        "boss_hp_log"@
    } else if position == 14 {
        "encounter_id"@
    } else if position == 15 {
        "spec"@
    } else {
        Seq::empty()
    }
}

/// The version that a set of marker answers implies: the highest position
/// whose marker is present, or 0 when none is. `flags[i]` tells whether the
/// marker of the migration at position `i + 1` is present.
pub open spec fn inferred_version(flags: Seq<bool>) -> int
    decreases flags.len(),
{
    if flags.len() == 0 {
        0
    } else if flags.last() {
        flags.len() as int
    } else {
        inferred_version(flags.drop_last())
    }
}

/// Legacy inference correctness: a store holding exactly the markers
/// introduced by migrations `1..=v`, and no later one, infers exactly
/// version `v`.
pub proof fn lemma_inference_exact(flags: Seq<bool>, v: int)
    requires
        0 <= v <= flags.len(),
        forall|i: int| 0 <= i < flags.len() ==> ((#[trigger] flags[i]) == (i < v)),
    ensures
        inferred_version(flags) == v,
    decreases flags.len(),
{
    if flags.len() == 0 {
    } else if flags.last() {
        assert(flags[flags.len() - 1]);
    } else {
        assert(!flags[flags.len() - 1]);
        assert(forall|i: int|
            0 <= i < flags.drop_last().len() ==> ((#[trigger] flags.drop_last()[i]) == (i < v)));
        lemma_inference_exact(flags.drop_last(), v);
    }
}

/// Probe descending-scan correctness: if the marker of version `v` is
/// present, inference never returns less than `v`, whether or not any
/// earlier marker is present.
pub proof fn lemma_inference_at_least(flags: Seq<bool>, v: int)
    requires
        1 <= v <= flags.len(),
        flags[v - 1],
    ensures
        inferred_version(flags) >= v,
    decreases flags.len(),
{
    if !flags.last() {
        assert(flags.drop_last()[v - 1] == flags[v - 1]);
        lemma_inference_at_least(flags.drop_last(), v);
    }
}

/// Why the descending, single-hit scan is right: when the marker of `v` is
/// present and every newer marker is absent, the inferred version is exactly
/// `v` — once the newest hit is found, nothing older needs to be checked.
pub proof fn lemma_first_hit_decides(flags: Seq<bool>, v: int)
    requires
        1 <= v <= flags.len(),
        flags[v - 1],
        forall|k: int| v <= k < flags.len() ==> !(#[trigger] flags[k]),
    ensures
        inferred_version(flags) == v,
    decreases flags.len(),
{
    if v == flags.len() {
        assert(flags.last());
    } else {
        assert(!flags[flags.len() - 1]);
        assert forall|k: int| v <= k < flags.drop_last().len() implies !(#[trigger] flags.drop_last()[
            k
        ]) by {
            assert(flags.drop_last()[k] == flags[k]);
        }
        assert(flags.drop_last()[v - 1] == flags[v - 1]);
        lemma_first_hit_decides(flags.drop_last(), v);
    }
}

/// Appends one probe, tying it to the next migration position: versions stay
/// exactly `1..=len` with every earlier probe untouched.
fn push_probe(probes: &mut Vec<ProbeEntry>, table: &'static str, column: &'static str)
    requires
        old(probes)@.len() < MIGRATION_COUNT,
    ensures
        final(probes)@.len() == old(probes)@.len() + 1,
        forall|i: int| 0 <= i < old(probes)@.len() ==> final(probes)@[i] == old(probes)@[i],
        final(probes)@.last().version == final(probes)@.len(),
        final(probes)@.last().table == table,
        final(probes)@.last().column == column,
{
    let version = probes.len() + 1;
    probes.push(ProbeEntry { table, column, version });
}

/// The legacy probe table: for each published migration, the (table, column)
/// its schema change first introduced, ordered by position, newest last.
/// Kept in lockstep with the registry: extended, never edited, when a
/// migration is appended.
pub fn probe_entries() -> (v: Vec<ProbeEntry>)
    ensures
        v@.len() == MIGRATION_COUNT,
        forall|i: int| 0 <= i < v@.len() ==> (#[trigger] v@[i]).version == i + 1,
        forall|i: int| 0 <= i < v@.len() ==> (#[trigger] v@[i]).table@ == probe_table(i + 1),
        forall|i: int| 0 <= i < v@.len() ==> (#[trigger] v@[i]).column@ == probe_column(i + 1),
{
    let mut probes: Vec<ProbeEntry> = Vec::new();
    push_probe(&mut probes, "encounter", "id");
    push_probe(&mut probes, "encounter", "misc");
    push_probe(&mut probes, "encounter", "difficulty");
    push_probe(&mut probes, "encounter", "version");
    push_probe(&mut probes, "entity", "dps");
    push_probe(&mut probes, "encounter", "boss_only_damage");
    push_probe(&mut probes, "encounter", "total_shielding");
    push_probe(&mut probes, "entity", "character_id");
    push_probe(&mut probes, "entity", "engravings");
    push_probe(&mut probes, "entity", "gear_hash");
    push_probe(&mut probes, "encounter_preview", "id");
    push_probe(&mut probes, "encounter_search_data", "id");
    push_probe(&mut probes, "encounter", "boss_hp_log");
    push_probe(&mut probes, "sync_logs", "encounter_id");
    push_probe(&mut probes, "entity", "spec");
    probes
}

/// The version that a vector of marker answers implies: exactly
/// `inferred_version` of the flags, found by scanning from the newest marker
/// down and stopping at the first one present.
pub fn infer_from_flags(flags: &Vec<bool>) -> (v: usize)
    ensures
        v as int == inferred_version(flags@),
{
    proof {
        assert(flags@.take(flags@.len() as int) =~= flags@);
    }
    let mut i: usize = flags.len();
    while i > 0
        invariant
            i <= flags@.len(),
            inferred_version(flags@) == inferred_version(flags@.take(i as int)),
        decreases i,
    {
        let j = i - 1;
        if flags[j] {
            proof {
                assert(flags@.take(i as int).last() == flags@[j as int]);
            }
            return i;
        }
        proof {
            assert(flags@.take(i as int).last() == flags@[j as int]);
            assert(flags@.take(i as int).drop_last() =~= flags@.take(j as int));
        }
        i = j;
    }
    0
}

/// Maps the physical shape of the store's schema to a schema version: scans
/// the probe list from newest to oldest and stops at the first marker whose
/// column exists in the live schema, whose position is the version; a store
/// matching no probe is version 0. Stopping at the first hit is sound
/// because migrations only add structure (`lemma_first_hit_decides`).
/// Read-only: inference never mutates the schema.
pub fn get_legacy_version(conn: &rusqlite::Connection) -> (r: Result<usize, StoreError>)
    ensures
        r matches Ok(v) ==> v <= MIGRATION_COUNT,
        r matches Err(e) ==> e matches StoreError::Probe(_),
{
    let probes = probe_entries();
    let mut i: usize = probes.len();
    while i > 0
        invariant
            i <= probes@.len(),
            probes@.len() == MIGRATION_COUNT,
            forall|k: int| 0 <= k < probes@.len() ==> (#[trigger] probes@[k]).version == k + 1,
        decreases i,
    {
        i = i - 1;
        let probe = probes[i];
        match column_exists(conn, probe.table, probe.column) {
            Ok(true) => {
                return Ok(probe.version);
            },
            Ok(false) => {},
            Err(e) => {
                return Err(StoreError::Probe(e));
            },
        }
    }
    Ok(0)
}

} // verus!
