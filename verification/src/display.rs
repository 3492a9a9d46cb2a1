//! The display capability every message and failure value offers.

use vstd::prelude::*;

verus! {

/// A value with a human-readable rendering. `display_spec` is the
/// mathematical statement of that rendering; `display_text` produces it.
pub trait ErrorDisplay {
    /// What displaying this value shows.
    spec fn display_spec(&self) -> Seq<char>;

    /// Render the value for a reader.
    fn display_text(&self) -> (r: String)
        ensures
            r@ == self.display_spec(),
    ;
}

impl ErrorDisplay for String {
    open spec fn display_spec(&self) -> Seq<char> {
        self@
    }

    fn display_text(&self) -> (r: String) {
        self.clone()
    }
}

} // verus!
