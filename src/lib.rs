//! Acquisition of the helper executables a Leptos build depends on: which
//! release to fetch for a platform, where it lives in the cache, when to ask
//! for a newer release, and the steps that turn a descriptor into a ready path.
mod acquire;
mod freshness;
mod logger;
mod release;
mod text;
mod tools;
mod version;

pub use acquire::{Acquisition, Action, Event, ExeCache, Failure, Stage};
pub use freshness::{check_after_record, should_check_for_new_version, Freshness, Marker, DAY_MS};
pub use logger::{dependency, split, Filter, Level, Log, LogFlag};
pub use release::{Advice, USER_AGENT};
pub use tools::{archive_kind, ArchiveKind, Exe, ExeMeta, Platform, TargetArch, TargetOs, ToolError};
pub use version::{normalize_version, sanitize_version_prefix, SemVer};
