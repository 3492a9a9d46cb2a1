//! Call-stack snapshots and the capture wrapper with chain-wide dedup.

use vstd::prelude::*;
use crate::chain::chain_display;
use crate::chain::chain_wf;
use crate::chain::contains_capture;
use crate::chain::first_snapshot;
use crate::chain::leaf_tag;
use crate::chain::leaf_text;
use crate::chain::lemma_first_snapshot_found;
use crate::chain::lemma_no_capture_no_snapshot;
use crate::chain::snapshot_count;
use crate::chain::ChainView;
use crate::display::ErrorDisplay;
use crate::erased::ErasedError;
use crate::erased::Failure;

verus! {

/// A captured representation of the call stack at the moment of capture.
#[derive(Debug)]
pub struct Snapshot {
    text: String,
}

/// Relies on std::backtrace::Backtrace::capture, formatted through its
/// std::fmt::Display impl: renders the call stack captured at the call site
/// (or a placeholder note when capture is disabled for the process).
#[verifier::external_body]
fn capture_stack_text() -> (r: String) {
    format!("{}", std::backtrace::Backtrace::capture())
}

impl Snapshot {
    /// The rendered text of the snapshot.
    pub closed spec fn text_spec(&self) -> Seq<char> {
        self.text@
    }

    /// Capture the call stack here.
    pub fn capture() -> Snapshot {
        Snapshot { text: capture_stack_text() }
    }

    /// The rendered text of the snapshot.
    pub fn text(&self) -> (r: &String)
        ensures
            r@ == self.text_spec(),
    {
        &self.text
    }
}

/// The chain-model text of an optional snapshot.
pub open spec fn snapshot_opt_view(s: Option<Snapshot>) -> Option<Seq<char>> {
    match s {
        Some(snap) => Some(snap.text_spec()),
        None => None,
    }
}

/// A fully erased failure value together with an optional call-stack
/// snapshot. At most one snapshot is ever materialized per causal chain:
/// the conversion that builds a `BacktraceCapture` captures a fresh snapshot
/// only when no capture layer stands anywhere in the chain it wraps.
#[derive(Debug)]
pub struct BacktraceCapture {
    err: ErasedError,
    snapshot: Option<Snapshot>,
}

impl BacktraceCapture {
    /// The chain of the held failure value.
    pub closed spec fn err_view(&self) -> ChainView {
        self.err@
    }

    /// The snapshot this node itself stores, if any.
    pub closed spec fn own_snapshot_spec(&self) -> Option<Seq<char>> {
        snapshot_opt_view(self.snapshot)
    }

    /// The whole chain this wrapper stands for: a capture layer above the
    /// held failure's chain.
    pub open spec fn chain_view(&self) -> ChainView {
        ChainView::Capture { snapshot: self.own_snapshot_spec(), cause: Box::new(self.err_view()) }
    }

    /// The snapshot-dedup invariant, established at conversion time.
    #[verifier::type_invariant]
    pub open spec fn well_formed(self) -> bool {
        chain_wf(self.chain_view())
    }

    /// Convert an erased failure value, deciding now whether to materialize
    /// a snapshot: a fresh one is captured exactly when the chain holds no
    /// capture layer yet, so the whole chain ends up holding exactly one.
    pub fn from_erased(err: ErasedError) -> (r: BacktraceCapture)
        ensures
            r.err_view() == err@,
            r.own_snapshot_spec() is Some <==> !contains_capture(err@),
            snapshot_count(r.chain_view()) == 1,
    {
        proof {
            use_type_invariant(&err);
            lemma_no_capture_no_snapshot(err@);
        }
        let snapshot = if err.has_capture() {
            None
        } else {
            Some(Snapshot::capture())
        };
        BacktraceCapture { err, snapshot }
    }

    /// This node's own stored snapshot, if any.
    pub fn own_backtrace(&self) -> (r: Option<&Snapshot>)
        ensures
            r is Some <==> self.own_snapshot_spec() is Some,
            r matches Some(s) ==> self.own_snapshot_spec() == Some(s.text_spec()),
    {
        match &self.snapshot {
            Some(s) => Some(s),
            None => None,
        }
    }

    /// The snapshot of the chain: this node's own if present, otherwise the
    /// one a deeper capture layer stores. Thanks to the dedup invariant a
    /// snapshot is always found.
    pub fn backtrace(&self) -> (r: Option<&Snapshot>)
        ensures
            r is Some,
            r matches Some(s) ==> first_snapshot(self.chain_view()) == Some(s.text_spec()),
    {
        proof {
            use_type_invariant(self);
            use_type_invariant(&self.err);
            lemma_first_snapshot_found(self.chain_view());
        }
        match &self.snapshot {
            Some(s) => Some(s),
            None => self.err.find_snapshot(),
        }
    }

    /// The held failure value: the cause one level down.
    pub fn err(&self) -> (r: &ErasedError)
        ensures
            r@ == self.err_view(),
    {
        &self.err
    }

    /// Kind check, delegated to the held failure value: the wrapper is
    /// transparent to downcasts.
    pub fn is_kind(&self, tag: u64) -> (r: bool)
        ensures
            r == (leaf_tag(self.chain_view()) == tag),
    {
        self.err.is_kind(tag)
    }

    /// Downcast, delegated to the held failure value: the displayed text of
    /// the original failure at the bottom of the chain, if it is of kind
    /// `tag`, however many layers sit above it.
    pub fn downcast_leaf(&self, tag: u64) -> (r: Option<&String>)
        ensures
            r is Some <==> leaf_tag(self.chain_view()) == tag,
            r matches Some(t) ==> t@ == leaf_text(self.chain_view()),
    {
        self.err.downcast_leaf(tag)
    }
}

impl ErrorDisplay for BacktraceCapture {
    open spec fn display_spec(&self) -> Seq<char> {
        chain_display(self.chain_view())
    }

    /// Displaying the wrapper shows what the held failure value shows.
    fn display_text(&self) -> (r: String) {
        self.err.display_text()
    }
}

impl Failure for BacktraceCapture {
    open spec fn chain_spec(&self) -> ChainView {
        self.chain_view()
    }

    fn erase(self) -> (r: ErasedError) {
        proof {
            use_type_invariant(&self);
            use_type_invariant(&self.err);
            lemma_no_capture_no_snapshot(self.err_view());
        }
        let BacktraceCapture { err, snapshot } = self;
        ErasedError::with_capture(snapshot, err)
    }
}

} // verus!
