//! Leaf failures made from a displayable message.

use vstd::prelude::*;
use crate::chain::ChainView;
use crate::display::ErrorDisplay;
use crate::erased::ErasedError;
use crate::erased::Failure;

verus! {

/// The kind identifier of message-error leaves in an erased chain.
pub const MSG_ERR_TAG: u64 = 1;

/// A minimal leaf failure: one displayable payload, no cause.
#[derive(Copy, Clone, Debug, Eq, PartialEq, Ord, PartialOrd, Hash)]
pub struct MsgErr<D>(D);

impl<D> MsgErr<D> {
    /// The payload the failure displays.
    pub closed spec fn msg_spec(&self) -> D {
        self.0
    }
}

/// Lift a displayable message into a failure value.
pub fn err_msg<D: ErrorDisplay>(msg: D) -> (r: MsgErr<D>)
    ensures
        r.msg_spec() == msg,
{
    MsgErr(msg)
}

impl<D: ErrorDisplay> ErrorDisplay for MsgErr<D> {
    open spec fn display_spec(&self) -> Seq<char> {
        self.msg_spec().display_spec()
    }

    /// Displaying the failure renders its payload.
    fn display_text(&self) -> (r: String) {
        self.0.display_text()
    }
}

impl<D: ErrorDisplay> Failure for MsgErr<D> {
    open spec fn chain_spec(&self) -> ChainView {
        ChainView::Leaf { tag: MSG_ERR_TAG, text: self.msg_spec().display_spec() }
    }

    fn erase(self) -> (r: ErasedError) {
        let MsgErr(msg) = self;
        ErasedError::leaf(MSG_ERR_TAG, msg.display_text())
    }
}

} // verus!
