//! The gateway loop: what to do with each item that the event stream
//! gives.

use crate::prompt::variables::{MessageVariables, VariablesView};
use vstd::prelude::*;

verus! {

/// One item of the event stream.
#[derive(Debug)]
pub enum GatewayItem {
    /// The stream has ended.
    Closed,
    /// An event could not be read; the reason.
    Failed(String),
    /// A message was created.
    Message(MessageVariables),
    /// The gateway is ready.
    Ready,
    /// The session was resumed.
    Resumed,
    /// Any other event.
    Other,
}

/// What the loop does next.
#[derive(Debug)]
pub enum LoopAction {
    /// Leave the loop.
    Stop,
    /// Go on with the next item.
    Continue,
    /// Hand the message to the hooks, then go on.
    Dispatch(MessageVariables),
}

/// Mathematical image of a [`LoopAction`].
pub enum LoopActionView {
    Stop,
    Continue,
    Dispatch(VariablesView),
}

impl View for LoopAction {
    type V = LoopActionView;

    open spec fn view(&self) -> LoopActionView {
        match self {
            LoopAction::Stop => LoopActionView::Stop,
            LoopAction::Continue => LoopActionView::Continue,
            LoopAction::Dispatch(message) => LoopActionView::Dispatch(message@),
        }
    }
}

/// The loop ends when the stream ends or shutdown was asked for. A message
/// goes to the hooks. An event that could not be read, and every other
/// event, is passed over.
pub open spec fn action_for(shutdown: bool, item: GatewayItem) -> LoopActionView {
    if shutdown || item is Closed {
        LoopActionView::Stop
    } else {
        match item {
            GatewayItem::Message(message) => LoopActionView::Dispatch(message@),
            _ => LoopActionView::Continue,
        }
    }
}

/// Decides what the loop does with `item`; `shutdown` says whether
/// shutdown was asked for.
pub fn next_action(shutdown: bool, item: GatewayItem) -> (out: LoopAction)
    ensures
        out@ == action_for(shutdown, item),
{
    if shutdown {
        return LoopAction::Stop;
    }
    match item {
        GatewayItem::Closed => LoopAction::Stop,
        GatewayItem::Message(message) => LoopAction::Dispatch(message),
        _ => LoopAction::Continue,
    }
}

} // verus!
