//! Moving a failure value behind a mutual-exclusion guard.

use vstd::prelude::*;
use crate::chain::ChainView;
use crate::display::ErrorDisplay;
use crate::erased::ErasedError;
use crate::erased::Failure;

verus! {

/// The kind identifier of guard-wrapped leaves in an erased chain.
pub const SYNC_ERR_TAG: u64 = 2;

/// std's mutual-exclusion guard. Verus holds it opaque; what it grants is
/// the marker semantics: a `Mutex<E>` can be moved to and shared with other
/// threads whenever `E` alone could at least be moved.
#[verifier::external_type_specification]
#[verifier::external_body]
#[verifier::reject_recursive_types(T)]
pub struct ExMutex<T: ?Sized>(std::sync::Mutex<T>);

/// Relies on std::sync::Mutex::new: takes ownership of the value and wraps
/// it in a fresh, unlocked guard.
#[verifier::external_body]
fn mutex_new<E>(err: E) -> std::sync::Mutex<E> {
    std::sync::Mutex::new(err)
}

/// A failure value moved behind a mutual-exclusion guard, so that it can
/// cross thread boundaries whether or not it could be shared before. The
/// value's rendering is fixed once, before the value is locked away; cause
/// lookup deliberately stops here: the wrapped value is opaque once locked.
#[verifier::reject_recursive_types(E)]
pub struct SyncError<E: ErrorDisplay> {
    guard: std::sync::Mutex<E>,
    text: String,
    inner: Ghost<E>,
}

impl<E: ErrorDisplay> SyncError<E> {
    /// The wrapped failure value.
    pub closed spec fn inner_spec(&self) -> E {
        self.inner@
    }

    /// The stored rendering is the wrapped value's: established when the
    /// guard is created, never changed afterwards.
    #[verifier::type_invariant]
    spec fn rendering_agrees(self) -> bool {
        self.text@ == self.inner_spec().display_spec()
    }

    /// Move `err` behind a fresh guard, rendering its text first.
    pub fn new(err: E) -> (r: SyncError<E>)
        ensures
            r.inner_spec() == err,
    {
        let text = err.display_text();
        let ghost inner = err;
        SyncError { guard: mutex_new(err), text, inner: Ghost(inner) }
    }
}

impl<E: ErrorDisplay> From<E> for SyncError<E> {
    /// Move `err` behind a fresh guard.
    fn from(err: E) -> (r: SyncError<E>) {
        SyncError::new(err)
    }
}

impl<E: ErrorDisplay> vstd::std_specs::convert::FromSpecImpl<E> for SyncError<E> {
    open spec fn obeys_from_spec() -> bool {
        false
    }

    open spec fn from_spec(e: E) -> SyncError<E> {
        choose|s: SyncError<E>| s.inner_spec() == e
    }
}

impl<E: ErrorDisplay> ErrorDisplay for SyncError<E> {
    open spec fn display_spec(&self) -> Seq<char> {
        self.inner_spec().display_spec()
    }

    /// Displaying hands back the rendering fixed at construction, which
    /// cannot differ from the locked value's: the rendering of a value is a
    /// pure function of it.
    fn display_text(&self) -> (r: String) {
        proof {
            use_type_invariant(self);
        }
        self.text.clone()
    }
}

impl<E: ErrorDisplay> Failure for SyncError<E> {
    open spec fn chain_spec(&self) -> ChainView {
        ChainView::Leaf { tag: SYNC_ERR_TAG, text: self.inner_spec().display_spec() }
    }

    /// Erasure ends the chain here: the guarded value contributes its text,
    /// not its own causes.
    fn erase(self) -> (r: ErasedError) {
        proof {
            use_type_invariant(&self);
        }
        let SyncError { guard: _, text, inner: _ } = self;
        ErasedError::leaf(SYNC_ERR_TAG, text)
    }
}

} // verus!
