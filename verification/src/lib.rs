//! Scheduling and supervision of short-lived external processes.
//!
//! A [`RunnableToken`] launches its runnable at most once and hands out the
//! [`RunnableHandle`] of that single execution. A handle settles once, either
//! to an [`ExecutionResult`] or to [`RunnableTerminated`], and replays that
//! outcome from then on. [`PendingOutput`] merges the two output streams of a
//! process into one line feed and one cumulative buffer, and
//! [`StatusIconTracker`] folds the outcomes of a batch into one signal.
//!
//! The library holds the decisions; the host performs the process and task
//! work and reports what happened.
pub mod handle;
pub mod output;
pub mod static_runner;
pub mod status;
pub mod status_bar_icon;
pub mod token;

pub use handle::{HandleView, Outcome, RunnableHandle};
pub use output::{OutputStream, OutputView, PendingOutput};
pub use static_runner::{Definition, SpawnTaskInTerminal, StaticRunner};
pub use status::{
    ExecutionError, ExecutionResult, ExitStatus, RunnableTerminated, SpawnError, Status,
};
pub use status_bar_icon::{Color, StatusIconTracker, TrackerView};
pub use token::{RunState, Runnable, RunnableMetadata, RunnableToken, Source, SourceError};
