//! The mathematical model of a causal chain.
//!
//! A chain is a singly-linked sequence of failure nodes: a leaf failure at
//! the bottom, with any number of context-message or snapshot-capture layers
//! above it. The spec functions here define what each operation of the
//! library means on that model, and the lemmas state the structural laws
//! that the executable wrappers are proved against.

use vstd::prelude::*;

verus! {

/// The abstract shape of one causal chain of failure values.
pub enum ChainView {
    /// A leaf failure: a runtime kind identifier and its displayed text.
    Leaf { tag: u64, text: Seq<char> },
    /// A context layer: a message, shown in place of the cause's text.
    Message { msg: Seq<char>, cause: Box<ChainView> },
    /// A snapshot-capture layer: an optional call-stack snapshot.
    Capture { snapshot: Option<Seq<char>>, cause: Box<ChainView> },
}

/// The number of nodes reachable by repeated cause lookup, this node included.
pub open spec fn chain_len(c: ChainView) -> nat
    decreases c,
{
    match c {
        ChainView::Leaf { .. } => 1,
        ChainView::Message { cause, .. } => 1 + chain_len(*cause),
        ChainView::Capture { cause, .. } => 1 + chain_len(*cause),
    }
}

/// The cause one level down the chain, if any.
pub open spec fn chain_cause(c: ChainView) -> Option<ChainView> {
    match c {
        ChainView::Leaf { .. } => None,
        ChainView::Message { cause, .. } => Some(*cause),
        ChainView::Capture { cause, .. } => Some(*cause),
    }
}

/// What displaying the chain's topmost value shows: a context layer shows
/// its message alone, a capture layer shows whatever its cause shows, and a
/// leaf shows its own text.
pub open spec fn chain_display(c: ChainView) -> Seq<char>
    decreases c,
{
    match c {
        ChainView::Leaf { text, .. } => text,
        ChainView::Message { msg, .. } => msg,
        ChainView::Capture { cause, .. } => chain_display(*cause),
    }
}

/// The kind identifier of the leaf at the bottom of the chain.
pub open spec fn leaf_tag(c: ChainView) -> u64
    decreases c,
{
    match c {
        ChainView::Leaf { tag, .. } => tag,
        ChainView::Message { cause, .. } => leaf_tag(*cause),
        ChainView::Capture { cause, .. } => leaf_tag(*cause),
    }
}

/// The displayed text of the leaf at the bottom of the chain.
pub open spec fn leaf_text(c: ChainView) -> Seq<char>
    decreases c,
{
    match c {
        ChainView::Leaf { text, .. } => text,
        ChainView::Message { cause, .. } => leaf_text(*cause),
        ChainView::Capture { cause, .. } => leaf_text(*cause),
    }
}

/// How many leaf nodes the chain holds.
pub open spec fn leaf_count(c: ChainView) -> nat
    decreases c,
{
    match c {
        ChainView::Leaf { .. } => 1,
        ChainView::Message { cause, .. } => leaf_count(*cause),
        ChainView::Capture { cause, .. } => leaf_count(*cause),
    }
}

/// Whether any capture layer stands anywhere in the chain.
pub open spec fn contains_capture(c: ChainView) -> bool
    decreases c,
{
    match c {
        ChainView::Leaf { .. } => false,
        ChainView::Message { cause, .. } => contains_capture(*cause),
        ChainView::Capture { .. } => true,
    }
}

/// How many call-stack snapshots are materialized in the chain.
pub open spec fn snapshot_count(c: ChainView) -> nat
    decreases c,
{
    match c {
        ChainView::Leaf { .. } => 0,
        ChainView::Message { cause, .. } => snapshot_count(*cause),
        ChainView::Capture { snapshot, cause } => (if snapshot is Some {
            1nat
        } else {
            0nat
        }) + snapshot_count(*cause),
    }
}

/// The topmost materialized snapshot found by walking the chain downward:
/// what the snapshot accessor of a capture layer hands back, delegating to a
/// deeper capture layer whenever its own snapshot is absent.
pub open spec fn first_snapshot(c: ChainView) -> Option<Seq<char>>
    decreases c,
{
    match c {
        ChainView::Leaf { .. } => None,
        ChainView::Message { cause, .. } => first_snapshot(*cause),
        ChainView::Capture { snapshot, cause } => if snapshot is Some {
            snapshot
        } else {
            first_snapshot(*cause)
        },
    }
}

/// The dedup invariant of every chain the library builds: a chain that holds
/// a capture layer holds exactly one materialized snapshot, and a chain
/// without one holds none.
pub open spec fn chain_wf(c: ChainView) -> bool {
    snapshot_count(c) == (if contains_capture(c) {
        1nat
    } else {
        0nat
    })
}

/// One wrapping layer, as a value: either a context message or a capture.
pub enum LayerView {
    Msg { msg: Seq<char> },
    Cap { snapshot: Option<Seq<char>> },
}

/// The chain obtained by wrapping `inner` in the given layers, the first
/// element of `layers` outermost.
pub open spec fn wrap_layers(layers: Seq<LayerView>, inner: ChainView) -> ChainView
    decreases layers.len(),
{
    if layers.len() == 0 {
        inner
    } else {
        match layers[0] {
            LayerView::Msg { msg } => ChainView::Message {
                msg,
                cause: Box::new(wrap_layers(layers.drop_first(), inner)),
            },
            LayerView::Cap { snapshot } => ChainView::Capture {
                snapshot,
                cause: Box::new(wrap_layers(layers.drop_first(), inner)),
            },
        }
    }
}

/// Every chain reaches exactly one leaf at its bottom.
pub proof fn lemma_one_leaf(c: ChainView)
    ensures
        leaf_count(c) == 1,
    decreases c,
{
    match c {
        ChainView::Leaf { .. } => {},
        ChainView::Message { cause, .. } => lemma_one_leaf(*cause),
        ChainView::Capture { cause, .. } => lemma_one_leaf(*cause),
    }
}

/// Wrapping a failure in any combination of context and capture layers adds
/// one chain node per layer and leaves the failure at the bottom untouched:
/// its kind and text - what a downcast through all the layers finds - are
/// those of the unwrapped failure.
pub proof fn lemma_chain_structure(layers: Seq<LayerView>, inner: ChainView)
    ensures
        chain_len(wrap_layers(layers, inner)) == layers.len() + chain_len(inner),
        leaf_tag(wrap_layers(layers, inner)) == leaf_tag(inner),
        leaf_text(wrap_layers(layers, inner)) == leaf_text(inner),
        leaf_count(wrap_layers(layers, inner)) == leaf_count(inner),
    decreases layers.len(),
{
    if layers.len() > 0 {
        lemma_chain_structure(layers.drop_first(), inner);
    }
}

/// A chain without a capture layer holds no snapshot at all.
pub proof fn lemma_no_capture_no_snapshot(c: ChainView)
    ensures
        !contains_capture(c) ==> snapshot_count(c) == 0,
    decreases c,
{
    match c {
        ChainView::Leaf { .. } => {},
        ChainView::Message { cause, .. } => lemma_no_capture_no_snapshot(*cause),
        ChainView::Capture { .. } => {},
    }
}

/// Walking a chain downward finds a snapshot exactly when one is
/// materialized somewhere in it.
pub proof fn lemma_first_snapshot_found(c: ChainView)
    ensures
        first_snapshot(c) is Some <==> snapshot_count(c) >= 1,
    decreases c,
{
    match c {
        ChainView::Leaf { .. } => {},
        ChainView::Message { cause, .. } => lemma_first_snapshot_found(*cause),
        ChainView::Capture { snapshot, cause } => {
            if snapshot is None {
                lemma_first_snapshot_found(*cause);
            }
        },
    }
}

/// The capture layer that the snapshot-attachment operation adds on top of a
/// chain `c`: a fresh snapshot `s` when no capture layer stands in `c`, and
/// no snapshot of its own otherwise.
pub open spec fn capture_layer(c: ChainView, s: Seq<char>) -> ChainView {
    ChainView::Capture {
        snapshot: if contains_capture(c) {
            None
        } else {
            Some(s)
        },
        cause: Box::new(c),
    }
}

/// The dedup law: attaching a snapshot-capture layer to a well-formed chain
/// yields a well-formed chain holding exactly one materialized snapshot, and
/// the snapshot accessor still finds one - the fresh snapshot where none
/// existed, and the already-present one otherwise.
pub proof fn lemma_backtrace_dedup(c: ChainView, s: Seq<char>)
    requires
        chain_wf(c),
    ensures
        chain_wf(capture_layer(c, s)),
        snapshot_count(capture_layer(c, s)) == 1,
        first_snapshot(capture_layer(c, s)) is Some,
        !contains_capture(c) ==> first_snapshot(capture_layer(c, s)) == Some(s),
        contains_capture(c) ==> first_snapshot(capture_layer(c, s)) == first_snapshot(c),
{
    lemma_no_capture_no_snapshot(c);
    lemma_first_snapshot_found(c);
}

} // verus!
