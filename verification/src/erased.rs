//! The type-erased causal chain, and the erasure capability.
//!
//! A failure value of any concrete type is erased into an [`ErasedError`]:
//! a chain of owned nodes that keeps each layer's displayed text and the
//! leaf's kind identifier, so that the chain can be walked, displayed and
//! downcast without knowing the concrete types it was built from. Every
//! `ErasedError` maintains the snapshot-dedup invariant [`chain_wf`] as a
//! type invariant.

use vstd::prelude::*;
use crate::backtrace::snapshot_opt_view;
use crate::backtrace::Snapshot;
use crate::chain::chain_cause;
use crate::chain::chain_display;
use crate::chain::chain_len;
use crate::chain::chain_wf;
use crate::chain::contains_capture;
use crate::chain::first_snapshot;
use crate::chain::leaf_tag;
use crate::chain::leaf_text;
use crate::chain::lemma_no_capture_no_snapshot;
use crate::chain::ChainView;
use crate::display::ErrorDisplay;

verus! {

#[derive(Debug)]
enum ErasedNode {
    Leaf { tag: u64, text: String },
    Message { msg: String, cause: Box<ErasedError> },
    Capture { snapshot: Option<Snapshot>, cause: Box<ErasedError> },
}

/// A fully type-erased failure value: the causal chain as owned data.
#[derive(Debug)]
pub struct ErasedError {
    node: ErasedNode,
}

/// The chain a node and everything below it stands for.
spec fn erased_view(e: ErasedError) -> ChainView
    decreases e,
{
    match e.node {
        ErasedNode::Leaf { tag, text } => ChainView::Leaf { tag, text: text@ },
        ErasedNode::Message { msg, cause } => ChainView::Message {
            msg: msg@,
            cause: Box::new(erased_view(*cause)),
        },
        ErasedNode::Capture { snapshot, cause } => ChainView::Capture {
            snapshot: snapshot_opt_view(snapshot),
            cause: Box::new(erased_view(*cause)),
        },
    }
}

impl View for ErasedError {
    type V = ChainView;

    closed spec fn view(&self) -> ChainView {
        erased_view(*self)
    }
}

impl ErasedError {
    /// The snapshot-dedup invariant, maintained by every chain this library
    /// builds.
    #[verifier::type_invariant]
    pub open spec fn well_formed(self) -> bool {
        chain_wf(self@)
    }

    /// A leaf failure: a kind identifier and its displayed text.
    pub fn leaf(tag: u64, text: String) -> (r: ErasedError)
        ensures
            r@ == (ChainView::Leaf { tag, text: text@ }),
    {
        ErasedError { node: ErasedNode::Leaf { tag, text } }
    }

    /// Wrap a chain in a context layer carrying `msg`.
    pub fn with_message(msg: String, cause: ErasedError) -> (r: ErasedError)
        ensures
            r@ == (ChainView::Message { msg: msg@, cause: Box::new(cause@) }),
    {
        proof {
            use_type_invariant(&cause);
        }
        ErasedError { node: ErasedNode::Message { msg, cause: Box::new(cause) } }
    }

    /// Wrap a chain in a capture layer. A snapshot is stored exactly when
    /// the chain below holds no capture layer yet.
    pub(crate) fn with_capture(snapshot: Option<Snapshot>, cause: ErasedError) -> (r: ErasedError)
        requires
            (snapshot is Some) <==> !contains_capture(cause@),
        ensures
            r@ == (ChainView::Capture {
                snapshot: snapshot_opt_view(snapshot),
                cause: Box::new(cause@),
            }),
    {
        proof {
            use_type_invariant(&cause);
            lemma_no_capture_no_snapshot(cause@);
        }
        ErasedError { node: ErasedNode::Capture { snapshot, cause: Box::new(cause) } }
    }

    /// The failure one level down the chain, if any.
    pub fn cause(&self) -> (r: Option<&ErasedError>)
        ensures
            r is Some <==> chain_cause(self@) is Some,
            r matches Some(c) ==> chain_cause(self@) == Some(c@),
    {
        match &self.node {
            ErasedNode::Leaf { .. } => None,
            ErasedNode::Message { cause, .. } => Some(&**cause),
            ErasedNode::Capture { cause, .. } => Some(&**cause),
        }
    }

    /// Whether a capture layer stands anywhere in the chain.
    pub fn has_capture(&self) -> (r: bool)
        ensures
            r == contains_capture(self@),
    {
        let mut cur: &ErasedError = self;
        loop
            invariant
                contains_capture(self@) == contains_capture(cur@),
            decreases chain_len(cur@),
        {
            match &cur.node {
                ErasedNode::Leaf { .. } => {
                    return false;
                },
                ErasedNode::Message { cause, .. } => {
                    cur = &**cause;
                },
                ErasedNode::Capture { .. } => {
                    return true;
                },
            }
        }
    }

    /// The leaf's kind-identifier check: whether the original failure at the
    /// bottom of the chain is of kind `tag`, whatever layers sit above it.
    pub fn is_kind(&self, tag: u64) -> (r: bool)
        ensures
            r == (leaf_tag(self@) == tag),
    {
        let mut cur: &ErasedError = self;
        loop
            invariant
                leaf_tag(self@) == leaf_tag(cur@),
            decreases chain_len(cur@),
        {
            match &cur.node {
                ErasedNode::Leaf { tag: t, .. } => {
                    return *t == tag;
                },
                ErasedNode::Message { cause, .. } => {
                    cur = &**cause;
                },
                ErasedNode::Capture { cause, .. } => {
                    cur = &**cause;
                },
            }
        }
    }

    /// Downcast through every layer: the displayed text of the original
    /// failure at the bottom of the chain, if it is of kind `tag`.
    pub fn downcast_leaf(&self, tag: u64) -> (r: Option<&String>)
        ensures
            r is Some <==> leaf_tag(self@) == tag,
            r matches Some(t) ==> t@ == leaf_text(self@),
    {
        let mut cur: &ErasedError = self;
        loop
            invariant
                leaf_tag(self@) == leaf_tag(cur@),
                leaf_text(self@) == leaf_text(cur@),
            decreases chain_len(cur@),
        {
            match &cur.node {
                ErasedNode::Leaf { tag: t, text } => {
                    if *t == tag {
                        return Some(text);
                    } else {
                        return None;
                    }
                },
                ErasedNode::Message { cause, .. } => {
                    cur = &**cause;
                },
                ErasedNode::Capture { cause, .. } => {
                    cur = &**cause;
                },
            }
        }
    }

    /// The topmost materialized snapshot of the chain, found by walking
    /// downward and delegating past capture layers whose own snapshot is
    /// absent.
    pub fn find_snapshot(&self) -> (r: Option<&Snapshot>)
        ensures
            r is Some <==> first_snapshot(self@) is Some,
            r matches Some(s) ==> first_snapshot(self@) == Some(s.text_spec()),
    {
        let mut cur: &ErasedError = self;
        loop
            invariant
                first_snapshot(self@) == first_snapshot(cur@),
            decreases chain_len(cur@),
        {
            match &cur.node {
                ErasedNode::Leaf { .. } => {
                    return None;
                },
                ErasedNode::Message { cause, .. } => {
                    cur = &**cause;
                },
                ErasedNode::Capture { snapshot: Some(s), .. } => {
                    return Some(s);
                },
                ErasedNode::Capture { snapshot: None, cause } => {
                    cur = &**cause;
                },
            }
        }
    }
}

impl ErrorDisplay for ErasedError {
    open spec fn display_spec(&self) -> Seq<char> {
        chain_display(self@)
    }

    /// Displaying a chain shows the outermost message or leaf text alone.
    fn display_text(&self) -> (r: String) {
        let mut cur: &ErasedError = self;
        loop
            invariant
                chain_display(self@) == chain_display(cur@),
            decreases chain_len(cur@),
        {
            match &cur.node {
                ErasedNode::Leaf { text, .. } => {
                    return text.clone();
                },
                ErasedNode::Message { msg, .. } => {
                    return msg.clone();
                },
                ErasedNode::Capture { cause, .. } => {
                    cur = &**cause;
                },
            }
        }
    }
}

/// A failure value that can be erased into a causal chain. Every wrapper
/// type of this library satisfies it, which is what lets wrappers nest
/// arbitrarily.
pub trait Failure: ErrorDisplay + Sized {
    /// The causal chain this failure value stands for.
    spec fn chain_spec(&self) -> ChainView;

    /// Erase the concrete type, keeping the chain: the erased value stands
    /// for the same chain, and that chain displays as this value does.
    fn erase(self) -> (r: ErasedError)
        ensures
            r@ == self.chain_spec(),
            chain_display(self.chain_spec()) == self.display_spec(),
    ;
}

impl Failure for ErasedError {
    open spec fn chain_spec(&self) -> ChainView {
        self@
    }

    fn erase(self) -> (r: ErasedError) {
        self
    }
}

} // verus!
