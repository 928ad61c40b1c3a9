//! Search orchestration and a paginated result cache for a desktop launcher.
//!
//! An external search process prints its matches as JSON. This crate decides
//! what its output means, turns it into result records, keeps the most recent
//! complete result set and hands out bounded windows of it.
//!
//! Running the process, reading the filesystem and guarding the cache with a
//! lock are left to the caller: the functions here take what those gave and
//! say what follows from it.

pub mod record;
pub mod error;
pub mod json;
pub mod text;
pub mod normalizer;
pub mod transport;
pub mod cache;
pub mod search;
pub mod classifier;
pub mod command;
pub mod history;
pub mod menu;

pub use cache::{get_search_results_slice, AppState};
pub use classifier::{get_icon_for_path, PathError, PathFacts};
pub use error::SearchError;
pub use normalizer::parse;
pub use record::{SearchResult, SearchResultSlice};
pub use search::{complete_search, find_results, perform_search};
pub use transport::{interpret_output, ProcessOutput, TransportOutcome};
pub use history::{
    load_run_history, load_search_history, save_run_history, save_search_history, HistoryError,
};
