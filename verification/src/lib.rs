//! Verified core of a tracker for competitive Pokémon sets: tiers, generations,
//! the selection of the set to record for each Pokémon, the statements sent to
//! the set database, and the decisions that drive a database refresh.

pub mod text;
pub mod format;
pub mod generation;
pub mod names;
pub mod dex;
pub mod sql;
pub mod pokemon;
pub mod sync;
pub mod progress;
pub mod summary;
pub mod icon;

pub use format::Format;
pub use generation::{get_table_name, Generation};
pub use pokemon::{InitializationMessage, Pokemon};
