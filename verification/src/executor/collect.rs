//! Collecting specs until Buck2 says there are no more.

use crate::errors::ExpectedError;
use crate::executor::spec::ExternalRunnerSpec;
use vstd::prelude::*;

verus! {

/// What there is to see of the connection while specs are collected.
#[derive(Debug)]
pub struct CollectState {
    /// The specs, once Buck2 has said that it sent them all. `Some(None)` means
    /// that serving ended before it did.
    pub specs: Option<Option<Vec<ExternalRunnerSpec>>>,

    /// Whether the connection has closed.
    pub hung_up: bool,
}

/// What to do while specs are collected.
#[derive(Debug)]
pub enum CollectStep {
    /// Wait for more to happen.
    Wait,

    /// Go on with these specs.
    Done(Vec<ExternalRunnerSpec>),

    /// Wait for serving to end, after telling it to if it has not been told, and
    /// report why it did.
    Fail {
        /// Whether serving has to be told to end.
        shut_down: bool,
    },
}

/// What to do, given what there is to see.
pub open spec fn next_step(state: CollectState) -> CollectStep {
    match state.specs {
        Some(Some(specs)) => CollectStep::Done(specs),
        Some(None) => CollectStep::Fail { shut_down: false },
        None => if state.hung_up {
            CollectStep::Fail { shut_down: true }
        } else {
            CollectStep::Wait
        },
    }
}

/// Says what to do, given what there is to see.
///
/// Two things can go wrong, and neither shows up as the other. Serving can
/// fail outright, which ends the wait for specs; or the connection can close
/// without Buck2 having said that it is done, which nothing reports.
///
/// The specs are looked at first, so that a Buck2 which sends the specs and
/// disconnects immediately afterwards is read as the completed handshake it is:
/// both have then happened, and only the specs are the answer.
pub fn collect_step(state: CollectState) -> (step: CollectStep)
    ensures
        step == next_step(state),
{
    match state.specs {
        Some(Some(specs)) => CollectStep::Done(specs),
        Some(None) => CollectStep::Fail { shut_down: false },
        None => if state.hung_up {
            CollectStep::Fail { shut_down: true }
        } else {
            CollectStep::Wait
        },
    }
}

/// Says why a session ended, given how serving did.
///
/// `served` is `None` if serving did not run to its end. Serving that ended
/// without an error of its own means Buck2 hung up.
pub fn serve_error(served: Option<Result<(), ExpectedError>>) -> (error: ExpectedError)
    ensures
        match served {
            Some(Err(cause)) => error == cause,
            _ => error == ExpectedError::Buck2Disconnected,
        },
{
    match served {
        Some(Err(error)) => error,
        _ => ExpectedError::Buck2Disconnected,
    }
}

/// Specs that all arrived are gone on with, whether or not Buck2 has hung up
/// since; a hangup before that is a failure, however many had arrived.
pub proof fn law_only_a_complete_handshake_counts(specs: Vec<ExternalRunnerSpec>, hung_up: bool)
    ensures
        next_step(CollectState { specs: Some(Some(specs)), hung_up }) == CollectStep::Done(specs),
        next_step(CollectState { specs: None, hung_up: true }) is Fail,
        next_step(CollectState { specs: Some(None), hung_up }) is Fail,
{
}

/// There is nothing to do but wait exactly as long as Buck2 has not said that it is
/// done, serving goes on, and the connection is open.
pub proof fn law_waiting_ends_with_the_connection(state: CollectState)
    ensures
        next_step(state) is Wait <==> state.specs is None && !state.hung_up,
        next_step(state) is Done <==> (state.specs matches Some(sent) && sent is Some),
        next_step(state) matches CollectStep::Done(specs) ==> state.specs == Some(Some(specs)),
        next_step(state) is Fail <==> state.specs == Some(None::<Vec<ExternalRunnerSpec>>)
            || state.specs is None && state.hung_up,
{
}

/// Serving is told to end exactly where it has not ended by itself.
pub proof fn law_serving_is_ended_once(state: CollectState)
    ensures
        next_step(state) matches CollectStep::Fail { shut_down } ==> (shut_down
            <==> state.specs is None),
{
}

} // verus!
