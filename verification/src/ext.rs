//! Uniform attachment points on failure values and on results.

use vstd::prelude::*;
use crate::backtrace::BacktraceCapture;
use crate::chain::chain_display;
use crate::chain::contains_capture;
use crate::chain::leaf_tag;
use crate::chain::leaf_text;
use crate::chain::snapshot_count;
use crate::chain::ChainView;
use crate::context::Context;
use crate::display::ErrorDisplay;
use crate::erased::Failure;
use crate::sync_error::SyncError;

verus! {

/// Wrapping operations available on every failure value.
pub trait ErrorExt: Failure {
    /// Attach a context message: the result displays `msg` alone and keeps
    /// this value, unchanged, as its cause.
    fn context<M: ErrorDisplay>(self, msg: M) -> (r: Context<M, Self>)
        ensures
            r.msg_spec() == msg,
            r.error_spec() == self,
            r.display_spec() == msg.display_spec(),
            r.chain_spec() == (ChainView::Message {
                msg: msg.display_spec(),
                cause: Box::new(self.chain_spec()),
            }),
    ;

    /// Move this value behind a mutual-exclusion guard.
    fn sync_err(self) -> (r: SyncError<Self>)
        ensures
            r.inner_spec() == self,
            r.display_spec() == self.display_spec(),
    ;

    /// Erase this value and wrap it in a capture layer: afterwards the whole
    /// chain holds exactly one materialized snapshot, stored by this layer
    /// exactly when no deeper layer already had one, and displaying the
    /// result still shows what this value showed.
    fn with_backtrace(self) -> (r: BacktraceCapture)
        ensures
            r.err_view() == self.chain_spec(),
            r.own_snapshot_spec() is Some <==> !contains_capture(self.chain_spec()),
            snapshot_count(r.chain_view()) == 1,
            chain_display(r.chain_view()) == self.display_spec(),
            leaf_tag(r.chain_view()) == leaf_tag(self.chain_spec()),
            leaf_text(r.chain_view()) == leaf_text(self.chain_spec()),
    ;
}

impl<E: Failure> ErrorExt for E {
    fn context<M: ErrorDisplay>(self, msg: M) -> (r: Context<M, Self>) {
        Context::new(msg, self)
    }

    fn sync_err(self) -> (r: SyncError<Self>) {
        SyncError::new(self)
    }

    fn with_backtrace(self) -> (r: BacktraceCapture) {
        BacktraceCapture::from_erased(self.erase())
    }
}

/// The same wrapping operations on results: a failing result has its failure
/// wrapped, a successful one passes through untouched.
pub trait ResultExt<T, E: Failure>: Sized {
    /// The result this value stands for.
    spec fn as_result(self) -> Result<T, E>;

    /// Attach a context message to the failure, if any.
    fn context<M: ErrorDisplay>(self, msg: M) -> (r: Result<T, Context<M, E>>)
        ensures
            self.as_result() matches Ok(t) ==> r matches Ok(t2) && t2 == t,
            self.as_result() matches Err(e) ==> r matches Err(c) && c.msg_spec() == msg
                && c.error_spec() == e,
    ;

    /// Attach a lazily-built context message to the failure, if any: the
    /// message closure runs only on the failing path.
    fn with_context<M: ErrorDisplay, F: FnOnce() -> M>(self, f: F) -> (r: Result<
        T,
        Context<M, E>,
    >)
        requires
            self.as_result() is Err ==> call_requires(f, ()),
        ensures
            self.as_result() matches Ok(t) ==> r matches Ok(t2) && t2 == t,
            self.as_result() matches Err(e) ==> r matches Err(c) && c.error_spec() == e
                && call_ensures(f, (), c.msg_spec()),
    ;

    /// Move the failure, if any, behind a mutual-exclusion guard.
    fn sync_err(self) -> (r: Result<T, SyncError<E>>)
        ensures
            self.as_result() matches Ok(t) ==> r matches Ok(t2) && t2 == t,
            self.as_result() matches Err(e) ==> r matches Err(s) && s.inner_spec() == e,
    ;

    /// Erase the failure, if any, and wrap it in a capture layer, so its
    /// chain holds exactly one materialized snapshot.
    fn with_backtrace(self) -> (r: Result<T, BacktraceCapture>)
        ensures
            self.as_result() matches Ok(t) ==> r matches Ok(t2) && t2 == t,
            self.as_result() matches Err(e) ==> r matches Err(b) && b.err_view() == e.chain_spec()
                && snapshot_count(b.chain_view()) == 1,
    ;
}

impl<T, E: Failure> ResultExt<T, E> for Result<T, E> {
    open spec fn as_result(self) -> Result<T, E> {
        self
    }

    fn context<M: ErrorDisplay>(self, msg: M) -> (r: Result<T, Context<M, E>>) {
        match self {
            Ok(t) => Ok(t),
            Err(e) => Err(e.context(msg)),
        }
    }

    fn with_context<M: ErrorDisplay, F: FnOnce() -> M>(self, f: F) -> (r: Result<
        T,
        Context<M, E>,
    >) {
        match self {
            Ok(t) => Ok(t),
            Err(e) => {
                let msg = f();
                Err(e.context(msg))
            },
        }
    }

    fn sync_err(self) -> (r: Result<T, SyncError<E>>) {
        match self {
            Ok(t) => Ok(t),
            Err(e) => Err(e.sync_err()),
        }
    }

    fn with_backtrace(self) -> (r: Result<T, BacktraceCapture>) {
        match self {
            Ok(t) => Ok(t),
            Err(e) => Err(e.with_backtrace()),
        }
    }
}

} // verus!
