//! The database handle that every command shares, and the answer to a lock request.

use vstd::prelude::*;

verus! {

/// The location of the database file that the commands open.
pub struct DatabaseState {
    db_path: String,
}

/// What `init_database` reports.
#[derive(Debug)]
pub struct DatabaseHealth {
    pub ready: bool,
    pub db_path: String,
}

/// The answer to a request for the lock that serialises the commands: the guard, or the
/// error that a poisoned lock gives (`None` stands for a lock that a command panicked
/// while holding).
pub fn lock_outcome<G>(guard: Option<G>) -> (r: Result<G, String>)
    ensures
        match guard {
            Some(g) => r == Ok::<G, String>(g),
            None => r matches Err(e) && e@ == "database lock is poisoned"@,
        },
{
    match guard {
        Some(g) => Ok(g),
        None => Err(String::from_str("database lock is poisoned")),
    }
}

impl DatabaseState {
    /// The location of the database file, as text.
    pub closed spec fn path_text(&self) -> Seq<char> {
        self.db_path@
    }

    /// A handle on the database file whose location reads `db_path`.
    pub fn new(db_path: String) -> (r: DatabaseState)
        ensures
            r.path_text() == db_path@,
    {
        DatabaseState { db_path }
    }

    /// The location of the database file, as text.
    pub fn path(&self) -> (r: String)
        ensures
            r@ == self.path_text(),
    {
        self.db_path.clone()
    }

    /// What `init_database` reports once the lock is held and the database opens: ready,
    /// at this location.
    pub fn health(&self) -> (r: DatabaseHealth)
        ensures
            r.ready,
            r.db_path@ == self.path_text(),
    {
        DatabaseHealth { ready: true, db_path: self.path() }
    }
}

} // verus!
