//! Pairing a failure value with a context message.

use vstd::prelude::*;
use crate::chain::chain_display;
use crate::chain::ChainView;
use crate::display::ErrorDisplay;
use crate::erased::ErasedError;
use crate::erased::Failure;

verus! {

/// A message paired with the failure it annotates. Displaying a `Context`
/// shows the message alone; the wrapped failure stays reachable, unchanged,
/// as the cause.
#[derive(Copy, Clone, Debug, Eq, PartialEq, Ord, PartialOrd, Hash)]
pub struct Context<M, E> {
    msg: M,
    error: E,
}

impl<M, E> Context<M, E> {
    /// The attached message.
    pub closed spec fn msg_spec(&self) -> M {
        self.msg
    }

    /// The wrapped failure.
    pub closed spec fn error_spec(&self) -> E {
        self.error
    }

    /// The cause of this value, as the cause lookup hands it out: always the
    /// wrapped failure.
    pub open spec fn source_spec(&self) -> Option<E> {
        Some(self.error_spec())
    }

    /// Attach `msg` to `error`, taking ownership of both. Construction
    /// cannot fail.
    pub fn new(msg: M, error: E) -> (r: Self)
        ensures
            r.msg_spec() == msg,
            r.error_spec() == error,
    {
        Context { msg, error }
    }

    /// The cause lookup: always the wrapped failure.
    pub fn source(&self) -> (r: Option<&E>)
        ensures
            r matches Some(e) && *e == self.error_spec(),
    {
        Some(&self.error)
    }
}

impl<M: ErrorDisplay, E> ErrorDisplay for Context<M, E> {
    open spec fn display_spec(&self) -> Seq<char> {
        self.msg_spec().display_spec()
    }

    /// Displaying a `Context` renders the message alone, never the wrapped
    /// failure's text.
    fn display_text(&self) -> (r: String) {
        self.msg.display_text()
    }
}

impl<M: ErrorDisplay, E: Failure> Failure for Context<M, E> {
    open spec fn chain_spec(&self) -> ChainView {
        ChainView::Message {
            msg: self.msg_spec().display_spec(),
            cause: Box::new(self.error_spec().chain_spec()),
        }
    }

    fn erase(self) -> (r: ErasedError) {
        let Context { msg, error } = self;
        let text = msg.display_text();
        ErasedError::with_message(text, error.erase())
    }
}

/// Attaching a context message yields a value that displays the message
/// alone, while its cause is exactly the wrapped failure and so still
/// displays as the wrapped failure did.
pub proof fn lemma_context_display<M: ErrorDisplay, E: ErrorDisplay>(c: Context<M, E>)
    ensures
        c.display_spec() == c.msg_spec().display_spec(),
        c.source_spec() matches Some(e) && e.display_spec() == c.error_spec().display_spec(),
{
}

} // verus!
