//! The operations behind the control surface: what each request does to the
//! controller, and the text that answers it.

use crate::controller::{RunState, TradingController};
use vstd::prelude::*;

verus! {

/// The text served at the root of the control surface.
pub open spec fn greeting() -> Seq<char> {
    "Hello, world!"@
}

/// The text that confirms a start.
pub open spec fn started_text() -> Seq<char> {
    "Bot started"@
}

/// The text that confirms a stop.
pub open spec fn stopped_text() -> Seq<char> {
    "Bot stopped"@
}

/// Answers a request for the root of the control surface.
pub fn index() -> (text: &'static str)
    ensures
        text@ == greeting(),
{
    "Hello, world!"
}

/// Starts the controller and confirms it. Succeeds in every state of the
/// controller, and touches nothing but the run state.
pub fn start_bot(controller: &mut TradingController) -> (text: &'static str)
    ensures
        final(controller)@ == old(controller)@.start(),
        final(controller)@.state == RunState::Running,
        text@ == started_text(),
{
    controller.start();
    "Bot started"
}

/// Stops the controller and confirms it. Succeeds in every state of the
/// controller, and touches nothing but the run state.
pub fn stop_bot(controller: &mut TradingController) -> (text: &'static str)
    ensures
        final(controller)@ == old(controller)@.stop(),
        final(controller)@.state == RunState::Stopped,
        text@ == stopped_text(),
{
    controller.stop();
    "Bot stopped"
}

} // verus!
