//! A small error-composition toolkit.
//!
//! Any failure value can be wrapped with a human-readable context message
//! while the original failure stays reachable as a traceable cause, a
//! call-stack snapshot can be attached once per causal chain, and a
//! non-thread-safe failure value can be moved behind a mutual-exclusion
//! guard so it may cross thread boundaries.
//!
//! The causal chain of a wrapped failure is modelled by [`chain::ChainView`],
//! and every operation on failure values carries a contract stated over that
//! model: wrapping never loses the original failure, at most one snapshot is
//! ever materialized per chain, and the original failure's kind stays
//! recognizable through any number of wrapping layers.

pub mod backtrace;
pub mod chain;
pub mod context;
pub mod display;
pub mod erased;
pub mod ext;
pub mod message;
pub mod sync_error;

pub use backtrace::BacktraceCapture;
pub use backtrace::Snapshot;
pub use chain::ChainView;
pub use context::Context;
pub use display::ErrorDisplay;
pub use erased::ErasedError;
pub use erased::Failure;
pub use ext::ErrorExt;
pub use ext::ResultExt;
pub use message::err_msg;
pub use message::MsgErr;
pub use message::MSG_ERR_TAG;
pub use sync_error::SyncError;
pub use sync_error::SYNC_ERR_TAG;
