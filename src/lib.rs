//! Strip metadata from PNG and JPEG images by a full pixel round trip.
//!
//! The library holds the decisions: which files are candidates, where each
//! one is written and backed up, the per-file pipeline as a state machine,
//! and the run summary. File access and directory walking stay with the
//! caller, which performs the actions the pipeline asks for.
pub mod codec;
pub mod paths;
pub mod pipeline;
pub mod plan;
pub mod summary;

pub use codec::{
    is_candidate, kind_of_extension, kind_of_path, optimize_png, reencode, should_recompress,
    walk_depth, ImageKind,
};
pub use paths::{backup_path, eq_ignore_ascii_case, extension, file_name, join};
pub use pipeline::{lemma_no_transcode_without_backup, Action, Event, FileJob, Stage};
pub use plan::{lemma_dry_run_plans_alike, plan, DispatchPlan, RunConfig};
pub use summary::{lemma_counts_partition, tally, Failure, Outcome, RunSummary};
