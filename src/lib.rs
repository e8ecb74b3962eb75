//! Orchestration core for a worker process: normalises the lines it prints,
//! accumulates its output, classifies how it ended, and offers read-side views
//! over the log tail and the article index.

pub mod text;
pub mod event;
pub mod run;
pub mod logs;
pub mod articles;
pub mod launch;

pub use text::{is_blank, join_lines};
pub use event::{SidecarEvent, Emission, stdout_emission, normalize_stdout, stderr_emission};
pub use run::{
    lemma_drain_keeps_stdout_in_order, lemma_stderr_never_accumulated, RunError, WriteReport,
    conclude_write, classify_exit, WorkerEvent, Step, Drain,
};
pub use logs::{DEFAULT_LOG_LINES, tail_lines, LogDate, log_file_name, LogView, read_logs};
pub use articles::{
    lemma_dir_without_metadata_excluded, is_metadata_name, is_flat_metadata_name, name_less,
    MetadataFile, EntryKind, ArticleEntry, Article, sort_entries_desc, find_metadata_in_dir,
    entry_article, collect_articles, list_articles_native,
    lemma_entry_without_article_changes_nothing,
};
pub use launch::{HomeRoot, ink_home, resolve_script_path, LaunchStrategy, launch_strategies, spawn_error};
