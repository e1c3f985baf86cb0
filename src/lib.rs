//! Fetches a runtime asset package from a mirror into a local cache, unpacks
//! it, and merges a fixed list of asset subdirectories into a game directory.
//!
//! The library holds every decision of that pipeline. The surrounding program
//! performs the filesystem and network work that each decision asks for and
//! reports back what it observed.
mod config;
mod error;
mod laws;
mod layout;
mod paths;
mod pipeline;

pub use config::Config;
pub use error::PatchError;
pub use laws::{
    lemma_full_pipeline, lemma_mirror_failure_run, lemma_opening, lemma_tree_only_run,
    lemma_failed_visits, lemma_visits_past,
    lemma_failed_stays, lemma_fetch_idempotent, lemma_merge_additive, lemma_merge_completes,
    lemma_merge_overwrites, lemma_missing_target_stops, lemma_phases_never_return,
    lemma_tree_skips_fetch, lemma_unpack_idempotent,
};
pub use layout::Layout;
pub use paths::{is_absolute, join};
pub use pipeline::{install, is_success, Action, Event, Pipeline, Stage};
