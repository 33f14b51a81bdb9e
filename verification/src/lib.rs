//! Verified core of a cache cleaner for a desktop chat application.
//!
//! The library decides; the surrounding binary performs. Given the
//! application's per-user data root and snapshots of directory listings,
//! the functions here compute exactly which filesystem actions a run
//! performs: which paths are printed in a dry run, which files and
//! directories are deleted otherwise, and when the run aborts.

mod config;
mod laws;
mod model;
mod plan;
mod targets;

pub use config::Config;
pub use laws::{lemma_dry_run_previews_only, lemma_missing_folder_skipped,
    lemma_no_targets_no_actions, lemma_real_run_deletes_every_candidate,
    lemma_silent_run_deletes_only, lemma_verbose_logs_each_deletion};
pub use model::{Action, ActionModel, Candidate, Entry, EntryKind, EntryModel, FolderListing,
    FolderModel, delete_action, is_mutation};
pub use plan::{FolderPlan, RunPlan, cands_actions, folder_candidates, folder_fatal, item_actions,
    leaf_candidates, leaf_fatal, lemma_cands_actions_concat, plan_leaf_folder, plan_run,
    plan_top_folder, run_actions, run_candidates, run_fatal, sweep_candidates, sweep_fatal,
    top_candidates, top_fatal};
pub use targets::{allowed_subfolder_names, allowed_subfolders, clone_path, join_path,
    leaf_dir_models, leaf_dirs, resolve_root, root_model};
