//! Lookup of blockchain network metadata mirrored from a public chain registry.
//!
//! The library holds the decisions of the tool: how the local mirror is brought
//! up to date (a state machine driven by the outcomes of git operations), where
//! the record of a chain id lives, how a list of records is ordered, how a name
//! query is answered, and what the rows of each view hold.

pub mod cli;
pub mod layout;
pub mod listing;
pub mod search;
pub mod sync;
pub mod text;
pub mod types;
pub mod views;

pub use cli::{Action, Cli};
pub use layout::{chain_file_name, MirrorLayout};
pub use listing::sort_by_chain_id;
pub use search::{find_by_name, search_folded, NameMatch};
pub use sync::{step, MirrorStatus, SyncAction, SyncError, SyncEvent, SyncPhase, TipRelation};
pub use text::{contains_text, decimal_string, join_lines};
pub use types::{ChainInfo, Currency, Explorer, Features};
pub use views::{candidate_rows, detail_rows, list_rows, list_table};
