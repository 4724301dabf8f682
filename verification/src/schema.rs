//! The database schema and the migrations that build it, in order.

use vstd::prelude::*;

use crate::text::{nat_text, push_char, u64_to_text};
use crate::time::Timestamp;

verus! {

/// The statements that create the table recording applied migrations: the
/// schemafull table `schema_migration` with its `uid`, `version`, `name` and
/// `applied_at` fields, and a unique index on `version`.
pub open spec fn bootstrap_statements() -> Seq<char> {
    r#"
DEFINE TABLE OVERWRITE schema_migration SCHEMAFULL;
DEFINE FIELD OVERWRITE uid ON schema_migration TYPE string;
DEFINE FIELD OVERWRITE version ON schema_migration TYPE int;
DEFINE FIELD OVERWRITE name ON schema_migration TYPE string;
DEFINE FIELD OVERWRITE applied_at ON schema_migration TYPE datetime;
DEFINE INDEX OVERWRITE schema_migration_version ON schema_migration FIELDS version UNIQUE;
"#@
}

/// The statements that create the table recording applied migrations.
pub fn migration_bootstrap() -> (r: &'static str)
    ensures
        r@ == bootstrap_statements(),
{
    r#"
DEFINE TABLE OVERWRITE schema_migration SCHEMAFULL;
DEFINE FIELD OVERWRITE uid ON schema_migration TYPE string;
DEFINE FIELD OVERWRITE version ON schema_migration TYPE int;
DEFINE FIELD OVERWRITE name ON schema_migration TYPE string;
DEFINE FIELD OVERWRITE applied_at ON schema_migration TYPE datetime;
DEFINE INDEX OVERWRITE schema_migration_version ON schema_migration FIELDS version UNIQUE;
"#
}

/// One step of the schema: its version, its name and the statements it runs.
#[derive(Clone, Copy, Debug)]
pub struct Migration {
    pub version: i32,
    pub name: &'static str,
    pub sql: &'static str,
}

/// A migration recorded as applied, and when.
#[derive(Clone, Debug, PartialEq, Eq)]
pub struct AppliedMigration {
    pub version: i32,
    pub name: String,
    pub applied_at: Timestamp,
}

/// The record of `migration` applied at `now`: its key, and the migration
/// as applied.
pub fn applied_record(migration: Migration, now: Timestamp) -> (r: (String, AppliedMigration))
    ensures
        r.0@ == spec_migration_id(migration.version, migration.name@),
        r.1.version == migration.version,
        r.1.name@ == migration.name@,
        r.1.applied_at == now,
{
    (
        migration_id(migration),
        AppliedMigration { version: migration.version, name: migration.name.to_owned(), applied_at: now },
    )
}

/// The versions of the schema migrations, in the order they run.
pub open spec fn catalog_versions() -> Seq<i32> {
    seq![1i32, 2i32, 3i32, 4i32, 5i32, 6i32]
}

/// The version of each migration of `ms`, in order.
pub open spec fn versions_of(ms: Seq<Migration>) -> Seq<i32> {
    ms.map_values(|m: Migration| m.version)
}

/// The schema migrations, in the order they run.
pub fn migrations() -> (r: Vec<Migration>)
    ensures
        versions_of(r@) == catalog_versions(),
{
    let mut r: Vec<Migration> = Vec::new();
    r.push(Migration { version: 1, name: "core_schema", sql: r#"
DEFINE TABLE OVERWRITE game SCHEMAFULL;
DEFINE FIELD OVERWRITE uid ON game TYPE string;
DEFINE FIELD OVERWRITE title ON game TYPE string;
DEFINE FIELD OVERWRITE system_prompt ON game TYPE string;
DEFINE FIELD OVERWRITE created_at ON game TYPE datetime;
DEFINE INDEX OVERWRITE game_created_at ON game FIELDS created_at;

DEFINE TABLE OVERWRITE session SCHEMAFULL;
DEFINE FIELD OVERWRITE uid ON session TYPE string;
DEFINE FIELD OVERWRITE game_id ON session TYPE string;
DEFINE FIELD OVERWRITE title ON session TYPE string;
DEFINE FIELD OVERWRITE created_at ON session TYPE datetime;
DEFINE INDEX OVERWRITE session_game_id ON session FIELDS game_id;
DEFINE INDEX OVERWRITE session_game_created_at ON session FIELDS game_id, created_at;

DEFINE TABLE OVERWRITE message SCHEMAFULL;
DEFINE FIELD OVERWRITE uid ON message TYPE string;
DEFINE FIELD OVERWRITE session_id ON message TYPE string;
DEFINE FIELD OVERWRITE role ON message TYPE string;
DEFINE FIELD OVERWRITE content ON message TYPE string;
DEFINE FIELD OVERWRITE created_at ON message TYPE datetime;
DEFINE INDEX OVERWRITE message_session_id ON message FIELDS session_id;
DEFINE INDEX OVERWRITE message_session_created_at ON message FIELDS session_id, created_at;

DEFINE TABLE OVERWRITE summary SCHEMAFULL;
DEFINE FIELD OVERWRITE uid ON summary TYPE string;
DEFINE FIELD OVERWRITE session_id ON summary TYPE string;
DEFINE FIELD OVERWRITE content ON summary TYPE string;
DEFINE FIELD OVERWRITE updated_at ON summary TYPE datetime;
DEFINE INDEX OVERWRITE summary_session_id ON summary FIELDS session_id UNIQUE;

DEFINE TABLE OVERWRITE character SCHEMAFULL;
DEFINE FIELD OVERWRITE uid ON character TYPE string;
DEFINE FIELD OVERWRITE game_id ON character TYPE string;
DEFINE FIELD OVERWRITE name ON character TYPE string;
DEFINE FIELD OVERWRITE description ON character TYPE string;
DEFINE FIELD OVERWRITE status ON character TYPE string;
DEFINE FIELD OVERWRITE updated_at ON character TYPE datetime;
DEFINE INDEX OVERWRITE character_game_id ON character FIELDS game_id;
DEFINE INDEX OVERWRITE character_game_name ON character FIELDS game_id, name;

DEFINE TABLE OVERWRITE event SCHEMAFULL;
DEFINE FIELD OVERWRITE uid ON event TYPE string;
DEFINE FIELD OVERWRITE session_id ON event TYPE string;
DEFINE FIELD OVERWRITE summary ON event TYPE string;
DEFINE FIELD OVERWRITE importance ON event TYPE int;
DEFINE FIELD OVERWRITE created_at ON event TYPE datetime;
DEFINE INDEX OVERWRITE event_session_id ON event FIELDS session_id;
DEFINE INDEX OVERWRITE event_session_created_at ON event FIELDS session_id, created_at;

DEFINE TABLE OVERWRITE location SCHEMAFULL;
DEFINE FIELD OVERWRITE uid ON location TYPE string;
DEFINE FIELD OVERWRITE game_id ON location TYPE string;
DEFINE FIELD OVERWRITE name ON location TYPE string;
DEFINE FIELD OVERWRITE description ON location TYPE string;
DEFINE FIELD OVERWRITE updated_at ON location TYPE datetime;
DEFINE INDEX OVERWRITE location_game_id ON location FIELDS game_id;
DEFINE INDEX OVERWRITE location_game_name ON location FIELDS game_id, name;

DEFINE TABLE OVERWRITE world_fact SCHEMAFULL;
DEFINE FIELD OVERWRITE uid ON world_fact TYPE string;
DEFINE FIELD OVERWRITE game_id ON world_fact TYPE string;
DEFINE FIELD OVERWRITE subject ON world_fact TYPE string;
DEFINE FIELD OVERWRITE predicate ON world_fact TYPE string;
DEFINE FIELD OVERWRITE object ON world_fact TYPE string;
DEFINE FIELD OVERWRITE content ON world_fact TYPE string;
DEFINE FIELD OVERWRITE confidence ON world_fact TYPE float;
DEFINE FIELD OVERWRITE updated_at ON world_fact TYPE datetime;
DEFINE INDEX OVERWRITE world_fact_game_id ON world_fact FIELDS game_id;
DEFINE INDEX OVERWRITE world_fact_triplet ON world_fact FIELDS game_id, subject, predicate, object;

DEFINE TABLE OVERWRITE memory_chunk SCHEMAFULL;
DEFINE FIELD OVERWRITE uid ON memory_chunk TYPE string;
DEFINE FIELD OVERWRITE session_id ON memory_chunk TYPE string;
DEFINE FIELD OVERWRITE kind ON memory_chunk TYPE string;
DEFINE FIELD OVERWRITE content ON memory_chunk TYPE string;
DEFINE FIELD OVERWRITE embedding ON memory_chunk TYPE array<float>;
DEFINE FIELD OVERWRITE created_at ON memory_chunk TYPE datetime;
DEFINE INDEX OVERWRITE memory_chunk_session_id ON memory_chunk FIELDS session_id;
DEFINE INDEX OVERWRITE memory_chunk_session_kind ON memory_chunk FIELDS session_id, kind;
"# });
    r.push(Migration { version: 2, name: "graph_relations", sql: r#"
DEFINE TABLE OVERWRITE session_in_game TYPE RELATION IN session OUT game SCHEMAFULL;
DEFINE FIELD OVERWRITE created_at ON session_in_game TYPE datetime;
DEFINE INDEX OVERWRITE session_in_game_pair ON session_in_game FIELDS in, out UNIQUE;

DEFINE TABLE OVERWRITE message_in_session TYPE RELATION IN message OUT session SCHEMAFULL;
DEFINE FIELD OVERWRITE created_at ON message_in_session TYPE datetime;
DEFINE INDEX OVERWRITE message_in_session_pair ON message_in_session FIELDS in, out UNIQUE;

DEFINE TABLE OVERWRITE event_in_session TYPE RELATION IN event OUT session SCHEMAFULL;
DEFINE FIELD OVERWRITE created_at ON event_in_session TYPE datetime;
DEFINE INDEX OVERWRITE event_in_session_pair ON event_in_session FIELDS in, out UNIQUE;

DEFINE TABLE OVERWRITE character_in_game TYPE RELATION IN character OUT game SCHEMAFULL;
DEFINE FIELD OVERWRITE created_at ON character_in_game TYPE datetime;
DEFINE INDEX OVERWRITE character_in_game_pair ON character_in_game FIELDS in, out UNIQUE;

DEFINE TABLE OVERWRITE location_in_game TYPE RELATION IN location OUT game SCHEMAFULL;
DEFINE FIELD OVERWRITE created_at ON location_in_game TYPE datetime;
DEFINE INDEX OVERWRITE location_in_game_pair ON location_in_game FIELDS in, out UNIQUE;

DEFINE TABLE OVERWRITE world_fact_in_game TYPE RELATION IN world_fact OUT game SCHEMAFULL;
DEFINE FIELD OVERWRITE created_at ON world_fact_in_game TYPE datetime;
DEFINE INDEX OVERWRITE world_fact_in_game_pair ON world_fact_in_game FIELDS in, out UNIQUE;

DEFINE TABLE OVERWRITE memory_in_session TYPE RELATION IN memory_chunk OUT session SCHEMAFULL;
DEFINE FIELD OVERWRITE created_at ON memory_in_session TYPE datetime;
DEFINE INDEX OVERWRITE memory_in_session_pair ON memory_in_session FIELDS in, out UNIQUE;

DEFINE TABLE OVERWRITE event_involves_character TYPE RELATION IN event OUT character SCHEMAFULL;
DEFINE FIELD OVERWRITE created_at ON event_involves_character TYPE datetime;
DEFINE INDEX OVERWRITE event_involves_character_pair ON event_involves_character FIELDS in, out UNIQUE;

DEFINE TABLE OVERWRITE event_happened_at_location TYPE RELATION IN event OUT location SCHEMAFULL;
DEFINE FIELD OVERWRITE created_at ON event_happened_at_location TYPE datetime;
DEFINE INDEX OVERWRITE event_happened_at_location_pair ON event_happened_at_location FIELDS in, out UNIQUE;

DEFINE TABLE OVERWRITE character_knows_world_fact TYPE RELATION IN character OUT world_fact SCHEMAFULL;
DEFINE FIELD OVERWRITE created_at ON character_knows_world_fact TYPE datetime;
DEFINE INDEX OVERWRITE character_knows_world_fact_pair ON character_knows_world_fact FIELDS in, out UNIQUE;

DEFINE TABLE OVERWRITE memory_supports_world_fact TYPE RELATION IN memory_chunk OUT world_fact SCHEMAFULL;
DEFINE FIELD OVERWRITE created_at ON memory_supports_world_fact TYPE datetime;
DEFINE INDEX OVERWRITE memory_supports_world_fact_pair ON memory_supports_world_fact FIELDS in, out UNIQUE;
"# });
    r.push(Migration { version: 3, name: "background_jobs", sql: r#"
DEFINE TABLE OVERWRITE background_job SCHEMAFULL;
DEFINE FIELD OVERWRITE uid ON background_job TYPE string;
DEFINE FIELD OVERWRITE kind ON background_job TYPE string;
DEFINE FIELD OVERWRITE status ON background_job TYPE string;
DEFINE FIELD OVERWRITE payload_json ON background_job TYPE string;
DEFINE FIELD OVERWRITE attempts ON background_job TYPE int;
DEFINE FIELD OVERWRITE max_attempts ON background_job TYPE int;
DEFINE FIELD OVERWRITE last_error ON background_job TYPE option<string>;
DEFINE FIELD OVERWRITE run_after ON background_job TYPE datetime;
DEFINE FIELD OVERWRITE created_at ON background_job TYPE datetime;
DEFINE FIELD OVERWRITE updated_at ON background_job TYPE datetime;
DEFINE INDEX OVERWRITE background_job_status_run_after ON background_job FIELDS status, run_after;
DEFINE INDEX OVERWRITE background_job_status_created_at ON background_job FIELDS status, created_at;
"# });
    r.push(Migration { version: 4, name: "user_ownership", sql: r#"
DEFINE TABLE OVERWRITE user_account SCHEMAFULL;
DEFINE FIELD OVERWRITE uid ON user_account TYPE string;
DEFINE FIELD OVERWRITE display_name ON user_account TYPE string;
DEFINE FIELD OVERWRITE created_at ON user_account TYPE datetime;
DEFINE INDEX OVERWRITE user_account_created_at ON user_account FIELDS created_at;

DEFINE FIELD OVERWRITE owner_user_id ON game TYPE string DEFAULT "";
UPDATE game SET owner_user_id = "" WHERE owner_user_id = NONE;
DEFINE INDEX OVERWRITE game_owner_user_id ON game FIELDS owner_user_id;
DEFINE INDEX OVERWRITE game_owner_created_at ON game FIELDS owner_user_id, created_at;
"# });
    r.push(Migration { version: 5, name: "indexed_memory_search", sql: r#"
DEFINE ANALYZER OVERWRITE memory_content_analyzer TOKENIZERS blank, class, camel, punct FILTERS lowercase, ascii;
DEFINE FIELD OVERWRITE embedding_16 ON memory_chunk TYPE option<array<float>>;
DEFINE INDEX OVERWRITE memory_chunk_content_fulltext ON TABLE memory_chunk FIELDS content FULLTEXT ANALYZER memory_content_analyzer BM25;
DEFINE INDEX OVERWRITE memory_chunk_embedding_16_hnsw ON TABLE memory_chunk FIELDS embedding_16 HNSW DIMENSION 16 DIST COSINE TYPE F32;
"# });
    r.push(Migration { version: 6, name: "provider_embedding_indexes", sql: r#"
DEFINE FIELD OVERWRITE embedding_384 ON memory_chunk TYPE option<array<float>>;
DEFINE FIELD OVERWRITE embedding_768 ON memory_chunk TYPE option<array<float>>;
DEFINE FIELD OVERWRITE embedding_1024 ON memory_chunk TYPE option<array<float>>;
DEFINE FIELD OVERWRITE embedding_1536 ON memory_chunk TYPE option<array<float>>;
DEFINE FIELD OVERWRITE embedding_3072 ON memory_chunk TYPE option<array<float>>;
DEFINE INDEX OVERWRITE memory_chunk_embedding_384_hnsw ON TABLE memory_chunk FIELDS embedding_384 HNSW DIMENSION 384 DIST COSINE TYPE F32;
DEFINE INDEX OVERWRITE memory_chunk_embedding_768_hnsw ON TABLE memory_chunk FIELDS embedding_768 HNSW DIMENSION 768 DIST COSINE TYPE F32;
DEFINE INDEX OVERWRITE memory_chunk_embedding_1024_hnsw ON TABLE memory_chunk FIELDS embedding_1024 HNSW DIMENSION 1024 DIST COSINE TYPE F32;
DEFINE INDEX OVERWRITE memory_chunk_embedding_1536_hnsw ON TABLE memory_chunk FIELDS embedding_1536 HNSW DIMENSION 1536 DIST COSINE TYPE F32;
DEFINE INDEX OVERWRITE memory_chunk_embedding_3072_hnsw ON TABLE memory_chunk FIELDS embedding_3072 HNSW DIMENSION 3072 DIST COSINE TYPE F32;
"# });
    assert(versions_of(r@) =~= catalog_versions());
    r
}
/// The versions of the schema migrations, in order.
pub fn migration_versions() -> (r: Vec<i32>)
    ensures
        r@ == catalog_versions(),
{
    let ms = migrations();
    let mut r: Vec<i32> = Vec::new();
    let mut i: usize = 0;
    while i < ms.len()
        invariant
            i <= ms@.len(),
            versions_of(ms@) == catalog_versions(),
            r@ == versions_of(ms@).subrange(0, i as int),
        decreases ms.len() - i,
    {
        r.push(ms[i].version);
        assert(versions_of(ms@).subrange(0, i + 1) =~= versions_of(ms@).subrange(0, i as int).push(
            ms@[i as int].version,
        ));
        i = i + 1;
    }
    assert(versions_of(ms@).subrange(0, ms@.len() as int) =~= versions_of(ms@));
    r
}

/// Whether `v` occurs in `applied`.
fn contains_version(applied: &[i32], v: i32) -> (r: bool)
    ensures
        r == applied@.contains(v),
{
    let mut i: usize = 0;
    while i < applied.len()
        invariant
            i <= applied@.len(),
            forall|j: int| 0 <= j < i ==> applied@[j] != v,
        decreases applied.len() - i,
    {
        if applied[i] == v {
            assert(applied@[i as int] == v);
            return true;
        }
        i = i + 1;
    }
    false
}

/// The migrations of `catalog` whose versions have not been applied, in order.
pub open spec fn spec_pending(catalog: Seq<Migration>, applied: Seq<i32>) -> Seq<Migration> {
    catalog.filter(|m: Migration| !applied.contains(m.version))
}

/// The migrations still to run, given the versions already applied.
pub fn pending_migrations(applied: &[i32]) -> (r: Vec<Migration>)
    ensures
        exists|catalog: Seq<Migration>|
            versions_of(catalog) == catalog_versions() && r@ == spec_pending(catalog, applied@),
{
    let ms = migrations();
    let mut r: Vec<Migration> = Vec::new();
    let mut i: usize = 0;
    while i < ms.len()
        invariant
            i <= ms@.len(),
            versions_of(ms@) == catalog_versions(),
            r@ == spec_pending(ms@.subrange(0, i as int), applied@),
        decreases ms.len() - i,
    {
        let m = ms[i];
        assert(ms@.subrange(0, i + 1).drop_last() =~= ms@.subrange(0, i as int));
        reveal_with_fuel(Seq::filter, 1);
        if !contains_version(applied, m.version) {
            r.push(m);
        }
        i = i + 1;
    }
    assert(ms@.subrange(0, ms@.len() as int) =~= ms@);
    r
}

/// Migrating twice changes nothing the second time: once the versions of
/// the pending migrations are recorded as applied, none is pending any more.
pub proof fn migrating_again_finds_nothing_pending(catalog: Seq<Migration>, applied: Seq<i32>)
    ensures
        spec_pending(catalog, applied + versions_of(spec_pending(catalog, applied))).len() == 0,
{
    let pending = spec_pending(catalog, applied);
    let after = applied + versions_of(pending);
    let first = |m: Migration| !applied.contains(m.version);
    let second = |m: Migration| !after.contains(m.version);
    assert forall|i: int| 0 <= i < catalog.len() implies !second(#[trigger] catalog[i]) by {
        let m = catalog[i];
        if applied.contains(m.version) {
            let k = choose|k: int| 0 <= k < applied.len() && applied[k] == m.version;
            assert(after[k] == m.version);
        } else {
            catalog.lemma_filter_contains(first, i);
            let k = choose|k: int| 0 <= k < pending.len() && pending[k] == m;
            assert(versions_of(pending)[k] == m.version);
            assert(after[applied.len() + k] == m.version);
        }
    }
    assert(catalog.all(|x: Migration| !second(x)));
    catalog.lemma_all_neg_filter_empty(second);
}

/// Running the pending migrations completes the schema: every version of the
/// catalog is then either already applied or pending, and no pending version
/// was applied before.
pub proof fn pending_migrations_complete_the_schema(catalog: Seq<Migration>, applied: Seq<i32>)
    ensures
        forall|i: int|
            0 <= i < catalog.len() ==> applied.contains(#[trigger] catalog[i].version)
                || spec_pending(catalog, applied).contains(catalog[i]),
        forall|m: Migration|
            #[trigger] spec_pending(catalog, applied).contains(m) ==> !applied.contains(m.version)
                && catalog.contains(m),
{
    let p = |m: Migration| !applied.contains(m.version);
    assert forall|i: int|
        0 <= i < catalog.len() implies applied.contains(#[trigger] catalog[i].version)
        || spec_pending(catalog, applied).contains(catalog[i]) by {
        if !applied.contains(catalog[i].version) {
            catalog.lemma_filter_contains(p, i);
        }
    }
    assert forall|m: Migration| #[trigger]
        spec_pending(catalog, applied).contains(m) implies !applied.contains(m.version)
        && catalog.contains(m) by {
        catalog.lemma_filter_contains_rev(p, m);
        let f = catalog.filter(p);
        let k = choose|k: int| 0 <= k < f.len() && f[k] == m;
        catalog.lemma_filter_pred(p, k);
    }
}

/// `digits` padded with leading zeros to at least `width` characters.
pub open spec fn zero_pad(digits: Seq<char>, width: nat) -> Seq<char> {
    if digits.len() >= width {
        digits
    } else {
        Seq::new((width - digits.len()) as nat, |i: int| '0') + digits
    }
}

/// The decimal text of `v` in a field of four characters padded with zeros
/// after any sign, as `{:04}` writes it.
pub open spec fn pad4_text(v: int) -> Seq<char> {
    if v < 0 {
        seq!['-'] + zero_pad(nat_text((-v) as nat), 3)
    } else {
        zero_pad(nat_text(v as nat), 4)
    }
}

/// The key of a migration's record: `m`, the zero-padded version, `_`, the name.
pub open spec fn spec_migration_id(version: i32, name: Seq<char>) -> Seq<char> {
    seq!['m'] + pad4_text(version as int) + seq!['_'] + name
}

/// Pads `digits` with leading zeros to `width` characters.
fn push_zero_padded(out: &mut Vec<char>, digits: &Vec<char>, width: usize)
    ensures
        final(out)@ == old(out)@ + zero_pad(digits@, width as nat),
{
    let mut k: usize = digits.len();
    let ghost start = out@;
    while k < width
        invariant
            digits@.len() <= k <= width || width <= digits@.len() == k,
            out@ == start + Seq::new((k - digits@.len()) as nat, |i: int| '0'),
        decreases width - k,
    {
        out.push('0');
        assert(Seq::new((k + 1 - digits@.len()) as nat, |i: int| '0') =~= Seq::new(
            (k - digits@.len()) as nat,
            |i: int| '0',
        ).push('0'));
        k = k + 1;
    }
    let mut j: usize = 0;
    let ghost mid = out@;
    while j < digits.len()
        invariant
            j <= digits@.len(),
            out@ == mid + digits@.subrange(0, j as int),
        decreases digits.len() - j,
    {
        out.push(digits[j]);
        assert(digits@.subrange(0, j + 1) =~= digits@.subrange(0, j as int).push(digits@[j as int]));
        j = j + 1;
    }
    assert(digits@.subrange(0, digits@.len() as int) =~= digits@);
    proof {
        if digits@.len() >= width {
            assert(Seq::new(0nat, |i: int| '0') =~= Seq::<char>::empty());
            assert(out@ =~= old(out)@ + digits@);
        } else {
            assert(out@ =~= old(out)@ + zero_pad(digits@, width as nat));
        }
    }
}

/// The key under which a migration is recorded.
pub fn migration_id(migration: Migration) -> (r: String)
    ensures
        r@ == spec_migration_id(migration.version, migration.name@),
{
    let v = migration.version as i64;
    let mut out: Vec<char> = Vec::new();
    out.push('m');
    if v < 0 {
        out.push('-');
        let d = crate::text::chars_of(u64_to_text((0 - v) as u64).as_str());
        push_zero_padded(&mut out, &d, 3);
    } else {
        let d = crate::text::chars_of(u64_to_text(v as u64).as_str());
        push_zero_padded(&mut out, &d, 4);
    }
    out.push('_');
    let name = crate::text::chars_of(migration.name);
    let mut j: usize = 0;
    let ghost mid = out@;
    while j < name.len()
        invariant
            j <= name@.len(),
            out@ == mid + name@.subrange(0, j as int),
        decreases name.len() - j,
    {
        out.push(name[j]);
        assert(name@.subrange(0, j + 1) =~= name@.subrange(0, j as int).push(name@[j as int]));
        j = j + 1;
    }
    assert(name@.subrange(0, name@.len() as int) =~= name@);
    assert(out@ =~= spec_migration_id(migration.version, migration.name@));
    crate::text::string_from_chars(out.as_slice())
}

} // verus!
