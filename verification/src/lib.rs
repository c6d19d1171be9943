//! A SQL access gateway over an embedded SQLite engine.
//!
//! Callers open named database handles by alias, run parameterized
//! statements and queries against them, and group statements into
//! atomic transactions identified by opaque string handles. The
//! registries, the routing of statements to either an ephemeral or a
//! transaction-pinned connection, and the value marshalling between
//! the caller's dynamic value format and the engine's native values
//! are verified; the engine itself is reached through a small set of
//! trusted wrappers.

pub mod commands;
pub mod error;
pub mod registry;
pub mod sql;
pub mod strings;
pub mod transactions;
pub mod value;

pub use error::Error;

use vstd::prelude::*;

verus! {

/// The last row identifier the engine reports after an `execute`.
#[derive(Debug)]
pub enum LastInsertId {
    Sqlite(i64),
}

/// Which direction a migration step was written for.
#[derive(Debug)]
pub enum MigrationKind {
    Up,
    Down,
}

/// A migration definition.
#[derive(Debug)]
pub struct Migration {
    pub version: i64,
    pub description: &'static str,
    pub sql: &'static str,
    pub down_sql: &'static str,
    pub kind: MigrationKind,
}

/// An ordered list of migration definitions for one database.
pub struct MigrationList(pub Vec<Migration>);

impl MigrationList {
    /// Translates the ordered definitions into the runner's native
    /// format, one reversible step per definition.
    pub fn resolve(self) -> (r: Vec<rusqlite_migration::M<'static>>)
        ensures
            r@.len() == self.0@.len(),
    {
        let mut out: Vec<rusqlite_migration::M<'static>> = Vec::new();
        let n = self.0.len();
        let mut i: usize = 0;
        while i < n
            invariant
                0 <= i <= n,
                n == self.0@.len(),
                out@.len() == i,
            decreases n - i,
        {
            let step = crate::sql::migration_up(self.0[i].sql);
            let step = crate::sql::migration_down(step, self.0[i].down_sql);
            out.push(step);
            i += 1;
        }
        out
    }
}

/// Startup configuration: locations to load eagerly.
pub struct PluginConfig {
    pub preload: Vec<String>,
}

/// An association list read as a map: a later entry for the same key
/// overwrites an earlier one.
pub open spec fn mig_map(s: Seq<(String, MigrationList)>) -> Map<Seq<char>, Seq<Migration>>
    decreases s.len(),
{
    if s.len() == 0 {
        Map::empty()
    } else {
        mig_map(s.drop_last()).insert(s.last().0@, s.last().1.0@)
    }
}

/// Collects per-database migration lists before the gateway starts.
pub struct Builder {
    migrations: Option<Vec<(String, MigrationList)>>,
}

impl Builder {
    /// The migrations registered so far, keyed by database url.
    pub closed spec fn migrations_view(&self) -> Map<Seq<char>, Seq<Migration>> {
        match self.migrations {
            Option::None => Map::empty(),
            Option::Some(v) => mig_map(v@),
        }
    }

    pub fn new() -> (r: Self)
        ensures
            r.migrations_view() == Map::<Seq<char>, Seq<Migration>>::empty(),
    {
        Builder { migrations: None }
    }

    /// Add migrations to a database; a second list for the same url
    /// replaces the first.
    #[must_use]
    pub fn add_migrations(self, db_url: &str, migrations: Vec<Migration>) -> (r: Self)
        ensures
            r.migrations_view() == self.migrations_view().insert(db_url@, migrations@),
    {
        let ghost old_view = self.migrations_view();
        let mut v: Vec<(String, MigrationList)> = match self.migrations {
            Option::Some(v) => v,
            Option::None => Vec::new(),
        };
        proof {
            if self.migrations is None {
                assert(mig_map(v@) =~= Map::<Seq<char>, Seq<Migration>>::empty());
            }
        }
        let ghost v0 = v@;
        v.push((db_url.to_owned(), MigrationList(migrations)));
        proof {
            assert(v@.drop_last() =~= v0);
        }
        let r = Builder { migrations: Some(v) };
        proof {
            assert(r.migrations_view() =~= old_view.insert(db_url@, migrations@));
        }
        r
    }
}

impl Default for Builder {
    /// A builder with no migrations registered.
    fn default() -> (r: Self)
        ensures
            r.migrations_view() == Map::<Seq<char>, Seq<Migration>>::empty(),
    {
        Builder { migrations: None }
    }
}

} // verus!
