//! The migration registry: the ordered, append-only list of schema steps.
//!
//! Each step carries a 1-based position and a batch of schema statements that
//! executes as a unit. The registry is constructed once at startup and passed
//! by reference; it never changes afterwards. The latest schema version is
//! simply the number of published steps.

use vstd::prelude::*;
use crate::errors::MigrationApplyError;
use crate::errors::ValidationError;
use crate::sqlite::apply_step;
use crate::sqlite::open_in_memory;

verus! {

/// How many migrations have been published: the latest schema version.
pub const MIGRATION_COUNT: usize = 15;

pub const SQL_STEP_1: &'static str = "
            CREATE TABLE encounter (
                id INTEGER PRIMARY KEY,
                last_combat_packet INTEGER,
                fight_start INTEGER,
                local_player TEXT,
                current_boss TEXT,
                duration INTEGER,
                total_damage_dealt INTEGER,
                top_damage_dealt INTEGER,
                total_damage_taken INTEGER,
                top_damage_taken INTEGER,
                dps INTEGER,
                buffs TEXT,
                debuffs TEXT
            );

            CREATE TABLE entity (
                name TEXT,
                encounter_id INTEGER NOT NULL,
                npc_id INTEGER,
                entity_type TEXT,
                class_id INTEGER,
                class TEXT,
                gear_score REAL,
                current_hp INTEGER,
                max_hp INTEGER,
                is_dead INTEGER,
                skills TEXT,
                damage_stats TEXT,
                skill_stats TEXT,
                last_update INTEGER,
                PRIMARY KEY (name, encounter_id),
                FOREIGN KEY (encounter_id) REFERENCES encounter (id) ON DELETE CASCADE
            );

            CREATE INDEX encounter_fight_start_index ON encounter (fight_start DESC);
            CREATE INDEX encounter_current_boss_index ON encounter (current_boss);
            CREATE INDEX entity_encounter_id_index ON entity (encounter_id DESC);
            CREATE INDEX entity_name_index ON entity (name);
            CREATE INDEX entity_class_index ON entity (class);
        ";

pub const SQL_STEP_2: &'static str = "ALTER TABLE encounter ADD COLUMN misc TEXT;";

pub const SQL_STEP_3: &'static str = "ALTER TABLE encounter ADD COLUMN difficulty TEXT;";

pub const SQL_STEP_4: &'static str = "
            ALTER TABLE encounter ADD COLUMN version INTEGER DEFAULT 1;
            ALTER TABLE encounter ADD COLUMN cleared BOOLEAN;
            ALTER TABLE encounter ADD COLUMN favorite BOOLEAN DEFAULT 0;
            CREATE INDEX encounter_favorite_index ON encounter (favorite);
        ";

pub const SQL_STEP_5: &'static str = "
            ALTER TABLE entity ADD COLUMN dps INTEGER;
            UPDATE entity SET dps = coalesce(json_extract(damage_stats, '$.dps'), 0) WHERE dps IS NULL;
            UPDATE encounter SET cleared = coalesce(json_extract(misc, '$.raidClear'), 0) WHERE cleared IS NULL;
        ";

pub const SQL_STEP_6: &'static str =
    "ALTER TABLE encounter ADD COLUMN boss_only_damage BOOLEAN NOT NULL DEFAULT 0;";

pub const SQL_STEP_7: &'static str = "
            ALTER TABLE encounter ADD COLUMN total_shielding INTEGER DEFAULT 0;
            ALTER TABLE encounter ADD COLUMN total_effective_shielding INTEGER DEFAULT 0;
            ALTER TABLE encounter ADD COLUMN applied_shield_buffs TEXT;
        ";

pub const SQL_STEP_8: &'static str = "ALTER TABLE entity ADD COLUMN character_id INTEGER;";

pub const SQL_STEP_9: &'static str = "ALTER TABLE entity ADD COLUMN engravings TEXT;";

pub const SQL_STEP_10: &'static str = "ALTER TABLE entity ADD COLUMN gear_hash TEXT;";

pub const SQL_STEP_11: &'static str = "
            CREATE TABLE encounter_preview (
                id INTEGER PRIMARY KEY,
                fight_start INTEGER,
                current_boss TEXT,
                duration INTEGER,
                players TEXT,
                difficulty TEXT,
                local_player TEXT,
                my_dps INTEGER,
                favorite BOOLEAN NOT NULL DEFAULT 0,
                cleared BOOLEAN,
                boss_only_damage BOOLEAN NOT NULL DEFAULT 0,
                FOREIGN KEY (id) REFERENCES encounter(id) ON DELETE CASCADE
            );

            INSERT INTO encounter_preview SELECT
                id, fight_start, current_boss, duration,
                (
                    SELECT GROUP_CONCAT(class_id || ':' || name ORDER BY dps DESC)
                    FROM entity
                    WHERE encounter_id = encounter.id AND entity_type = 'PLAYER'
                ) AS players,
                difficulty, local_player,
                (
                    SELECT dps
                    FROM entity
                    WHERE encounter_id = encounter.id AND name = encounter.local_player
                ) AS my_dps,
                favorite, cleared, boss_only_damage
            FROM encounter;

            DROP INDEX IF EXISTS encounter_fight_start_index;
            DROP INDEX IF EXISTS encounter_current_boss_index;
            DROP INDEX IF EXISTS encounter_favorite_index;
            DROP INDEX IF EXISTS entity_name_index;
            DROP INDEX IF EXISTS entity_class_index;

            ALTER TABLE encounter DROP COLUMN fight_start;
            ALTER TABLE encounter DROP COLUMN current_boss;
            ALTER TABLE encounter DROP COLUMN duration;
            ALTER TABLE encounter DROP COLUMN difficulty;
            ALTER TABLE encounter DROP COLUMN local_player;
            ALTER TABLE encounter DROP COLUMN favorite;
            ALTER TABLE encounter DROP COLUMN cleared;
            ALTER TABLE encounter DROP COLUMN boss_only_damage;

            CREATE INDEX encounter_preview_favorite_index ON encounter_preview(favorite);
            CREATE INDEX encounter_preview_fight_start_index ON encounter_preview(fight_start);
            CREATE INDEX encounter_preview_my_dps_index ON encounter_preview(my_dps);
            CREATE INDEX encounter_preview_duration_index ON encounter_preview(duration);
        ";

pub const SQL_STEP_12: &'static str = "
            CREATE VIRTUAL TABLE encounter_search USING fts5(
                current_boss, players, columnsize=0, detail=full,
                tokenize='trigram remove_diacritics 1',
                content=encounter_preview, content_rowid=id
            );
            INSERT INTO encounter_search(encounter_search) VALUES('rebuild');
            CREATE TRIGGER encounter_preview_ai AFTER INSERT ON encounter_preview BEGIN
                INSERT INTO encounter_search(rowid, current_boss, players)
                VALUES (new.id, new.current_boss, new.players);
            END;
            CREATE TRIGGER encounter_preview_ad AFTER DELETE ON encounter_preview BEGIN
                INSERT INTO encounter_search(encounter_search, rowid, current_boss, players)
                VALUES('delete', old.id, old.current_boss, old.players);
            END;
            CREATE TRIGGER encounter_preview_au AFTER UPDATE OF current_boss, players ON encounter_preview BEGIN
                INSERT INTO encounter_search(encounter_search, rowid, current_boss, players)
                VALUES('delete', old.id, old.current_boss, old.players);
                INSERT INTO encounter_search(rowid, current_boss, players)
                VALUES (new.id, new.current_boss, new.players);
            END;
        ";

pub const SQL_STEP_13: &'static str = "
            ALTER TABLE encounter ADD COLUMN boss_hp_log BLOB;
            ALTER TABLE encounter ADD COLUMN stagger_log TEXT;
        ";

pub const SQL_STEP_14: &'static str = "
            CREATE TABLE IF NOT EXISTS sync_logs (
                encounter_id INTEGER PRIMARY KEY,
                upstream_id TEXT,
                failed BOOLEAN NOT NULL DEFAULT 0,
                FOREIGN KEY (encounter_id) REFERENCES encounter (id) ON DELETE CASCADE
            );
        ";

pub const SQL_STEP_15: &'static str = "
            ALTER TABLE entity ADD COLUMN spec TEXT;
            ALTER TABLE entity ADD COLUMN ark_passive_active BOOLEAN;
            ALTER TABLE entity ADD COLUMN ark_passive_data TEXT;
        ";

/// The exact batch of schema statements published at `position`.
pub open spec fn migration_sql(position: int) -> Seq<char> {
    if position == 1 {
        SQL_STEP_1@
    } else if position == 2 {
        SQL_STEP_2@
    } else if position == 3 {
        SQL_STEP_3@
    } else if position == 4 {
        SQL_STEP_4@
    } else if position == 5 {
        SQL_STEP_5@
    } else if position == 6 {
        SQL_STEP_6@
    } else if position == 7 {
        SQL_STEP_7@
    } else if position == 8 {
        SQL_STEP_8@
    } else if position == 9 {
        SQL_STEP_9@
    } else if position == 10 {
        SQL_STEP_10@
    } else if position == 11 {
        SQL_STEP_11@
    } else if position == 12 {
        SQL_STEP_12@
    } else if position == 13 {
        SQL_STEP_13@
    } else if position == 14 {
        SQL_STEP_14@
    } else if position == 15 {
        SQL_STEP_15@
    } else {
        Seq::empty()
    }
}

/// The description published at `position`, if any.
pub open spec fn migration_description(position: int) -> Option<Seq<char>> {
    if position == 11 {
        Option::Some("move encounter preview info into a separate table"@)
    } else if position == 12 {
        Option::Some("add full text search"@)
    } else if position == 13 {
        Option::Some("add compression to logs"@)
    } else if position == 14 {
        Option::Some("allow uploading logs"@)
    } else {
        Option::None
    }
}

/// Whether a step's stored description reads exactly as `text`.
pub open spec fn description_matches(d: Option<&'static str>, text: Option<Seq<char>>) -> bool {
    match (d, text) {
        (Option::Some(s), Option::Some(t)) => s@ == t,
        (Option::None, Option::None) => true,
        _ => false,
    }
}

/// One schema-transformation step: its 1-based position in the registry, the
/// batch of schema statements it runs as a unit, and an optional description
/// for diagnostics.
#[derive(Clone, Copy)]
pub struct Migration {
    pub position: usize,
    pub sql: &'static str,
    pub description: Option<&'static str>,
}

/// The versions an apply pass from `current` toward `target` confirms, in the
/// order their steps run: `current + 1, ..., target`, or nothing when the
/// store already stands at or past `target`.
pub open spec fn pending_steps(current: int, target: int) -> Seq<int> {
    if current >= target {
        Seq::empty()
    } else {
        Seq::new((target - current) as nat, |k: int| current + 1 + k)
    }
}

/// The version a store ends at when an apply pass brings `current` toward
/// `target`: nothing moves backwards, so a store already past `target` keeps
/// its version.
pub open spec fn end_version(current: int, target: int) -> int {
    if current >= target {
        current
    } else {
        target
    }
}

/// Resumability: an apply pass interrupted after completing step `k` leaves
/// exactly the plan's suffix to run. Restarting from `k` confirms steps
/// `k + 1..=target` and nothing else, so the two runs together confirm the
/// same steps, in the same order, as one uninterrupted pass.
pub proof fn lemma_resume_plan(current: int, k: int, target: int)
    requires
        current <= k <= target,
    ensures
        pending_steps(current, target) =~= pending_steps(current, k) + pending_steps(k, target),
{
}

/// Idempotence at the latest version: a store already at the target has an
/// empty plan, and an apply pass leaves its version unchanged.
pub proof fn lemma_apply_at_latest_noop(version: int)
    ensures
        pending_steps(version, version) =~= Seq::<int>::empty(),
        end_version(version, version) == version,
{
}

/// The ordered, immutable list of published migrations.
pub struct MigrationRegistry {
    steps: Vec<Migration>,
}

impl View for MigrationRegistry {
    type V = Seq<Migration>;

    closed spec fn view(&self) -> Seq<Migration> {
        self.steps@
    }
}

/// Appends one step, giving it the next position: positions stay exactly
/// `1..=len` with every earlier step untouched.
fn push_step(steps: &mut Vec<Migration>, sql: &'static str, description: Option<&'static str>)
    requires
        old(steps)@.len() < MIGRATION_COUNT,
    ensures
        final(steps)@.len() == old(steps)@.len() + 1,
        forall|i: int| 0 <= i < old(steps)@.len() ==> final(steps)@[i] == old(steps)@[i],
        final(steps)@.last().position == final(steps)@.len(),
        final(steps)@.last().sql == sql,
        final(steps)@.last().description == description,
{
    let position = steps.len() + 1;
    steps.push(Migration { position, sql, description });
}

impl MigrationRegistry {
    /// The full published sequence, in order: each step stands at its
    /// 1-based position with exactly the statements and description published
    /// there. Append-only: steps are never reordered, edited, or removed once
    /// released.
    pub fn published() -> (r: MigrationRegistry)
        ensures
            r.wf(),
            forall|i: int|
                0 <= i < r@.len() ==> (#[trigger] r@[i]).sql@ == migration_sql(i + 1),
            forall|i: int|
                0 <= i < r@.len() ==> description_matches(
                    (#[trigger] r@[i]).description,
                    migration_description(i + 1),
                ),
    {
        let mut steps: Vec<Migration> = Vec::new();
        push_step(&mut steps, SQL_STEP_1, None);
        push_step(&mut steps, SQL_STEP_2, None);
        push_step(&mut steps, SQL_STEP_3, None);
        push_step(&mut steps, SQL_STEP_4, None);
        push_step(&mut steps, SQL_STEP_5, None);
        push_step(&mut steps, SQL_STEP_6, None);
        push_step(&mut steps, SQL_STEP_7, None);
        push_step(&mut steps, SQL_STEP_8, None);
        push_step(&mut steps, SQL_STEP_9, None);
        push_step(&mut steps, SQL_STEP_10, None);
        push_step(
            &mut steps,
            SQL_STEP_11,
            Some("move encounter preview info into a separate table"),
        );
        push_step(&mut steps, SQL_STEP_12, Some("add full text search"));
        push_step(&mut steps, SQL_STEP_13, Some("add compression to logs"));
        push_step(&mut steps, SQL_STEP_14, Some("allow uploading logs"));
        push_step(&mut steps, SQL_STEP_15, None);
        MigrationRegistry { steps }
    }

    /// Well-formedness: the steps carry positions exactly `1..=len`, in
    /// order, and the registry holds the full published sequence.
    pub open spec fn wf(&self) -> bool {
        &&& self@.len() == MIGRATION_COUNT
        &&& forall|i: int| 0 <= i < self@.len() ==> (#[trigger] self@[i]).position == i + 1
    }

    /// The count of published migrations: the latest schema version.
    pub fn latest_version(&self) -> (v: usize)
        ensures
            v == self@.len(),
    {
        self.steps.len()
    }

    /// A read-only view of the steps, for callers that replay or inspect the
    /// sequence.
    pub fn steps(&self) -> (r: &Vec<Migration>)
        ensures
            r@ == self@,
    {
        &self.steps
    }

    /// Applies, in position order, every migration with position above
    /// `current`, up to `target`. Each step runs as an atomic unit: its batch
    /// and its marker write commit together or roll back together, so the
    /// store always stands at a well-defined last-completed step and an
    /// interrupted pass resumes exactly where it stopped. On failure the pass
    /// stops at once and names the failing position; steps already committed
    /// are not rolled back.
    pub fn apply_to(&self, conn: &rusqlite::Connection, current: usize, target: usize) -> (r:
        Result<usize, MigrationApplyError>)
        requires
            self.wf(),
            target <= self@.len(),
        ensures
            r matches Ok(v) ==> v as int == end_version(current as int, target as int),
            r matches Ok(v) ==> v >= current,
            r matches Err(e) ==> pending_steps(current as int, target as int).contains(
                e.position as int,
            ),
            r matches Err(e) ==> current < e.position <= target,
    {
        let mut version = current;
        while version < target
            invariant
                self.wf(),
                target <= self@.len(),
                current <= version,
                current >= target ==> version == current,
                current < target ==> version <= target,
            decreases target - version,
        {
            let position = version + 1;
            let step = self.steps[version];
            proof {
                assert(pending_steps(current as int, target as int)[version - current]
                    == position as int);
            }
            match apply_step(conn, step.sql, position as u32) {
                Ok(()) => {},
                Err(e) => {
                    return Err(MigrationApplyError { position, cause: e });
                },
            }
            version = position;
        }
        Ok(version)
    }

    /// Applies every pending migration, bringing the store from `current` to
    /// the latest version.
    pub fn apply(&self, conn: &rusqlite::Connection, current: usize) -> (r: Result<
        usize,
        MigrationApplyError,
    >)
        requires
            self.wf(),
        ensures
            r matches Ok(v) ==> v as int == end_version(current as int, MIGRATION_COUNT as int),
            r matches Ok(v) ==> v >= current,
            r matches Err(e) ==> pending_steps(current as int, MIGRATION_COUNT as int).contains(
                e.position as int,
            ),
            r matches Err(e) ==> current < e.position <= MIGRATION_COUNT,
    {
        let latest = self.latest_version();
        self.apply_to(conn, current, latest)
    }

    /// Replays the full sequence against a scratch in-memory store: confirms
    /// every step is applicable and that no later step assumes a state
    /// incompatible with the net effect of all earlier ones. A build/test
    /// time check, not part of normal startup.
    pub fn validate(&self) -> (r: Result<(), ValidationError>)
        requires
            self.wf(),
        ensures
            r matches Err(ValidationError::Migration(e)) ==> pending_steps(
                0,
                MIGRATION_COUNT as int,
            ).contains(e.position as int),
    {
        let conn = match open_in_memory() {
            Ok(c) => c,
            Err(e) => {
                return Err(ValidationError::Connection(e));
            },
        };
        match self.apply(&conn, 0) {
            Ok(_) => Ok(()),
            Err(e) => Err(ValidationError::Migration(e)),
        }
    }
}

} // verus!
