//! Records, validation, ordering and identifiers of a local task manager
//! whose rows live in an SQLite database.

pub mod clock;
pub mod flows;
pub mod lookup;
pub mod order;
pub mod settings;
pub mod state;
pub mod tasks;
pub mod text;
