//! The health of the fleet as the probe reports it.

use vstd::prelude::*;
use vstd::string::*;

use crate::worker_set::Fleet;
use crate::worker_set::Phase;
use crate::worker_set::WorkerSet;

verus! {

/// State of a health check result.
#[derive(Clone, Debug, PartialEq, Eq)]
pub enum State {
    /// Everything is ok with this indicator
    Healthy,
    /// Something's unhealthy; the text says what.
    Unhealthy(String),
}

/// What is wrong with a fleet in `phase`, where something is.
pub open spec fn complaint(phase: Phase) -> Option<Seq<char>> {
    match phase {
        Phase::Running => None,
        Phase::Startup => Some("still starting up"@),
        Phase::Underprovisioned => Some("underprovisioned"@),
        Phase::Faulted => Some("faulted"@),
    }
}

/// The health of a fleet: healthy while it is running, and unhealthy with the reason in
/// every other phase.
pub open spec fn health_of(fleet: Fleet) -> Option<Seq<char>> {
    complaint(fleet.phase)
}

/// What the probe answers over HTTP: a status code and a body.
#[derive(Clone, Debug, PartialEq, Eq)]
pub struct Response {
    pub status: u16,
    pub body: String,
}

/// The status code of the answer: 200 (OK) for a healthy fleet, and 417 (Expectation
/// Failed) otherwise.
pub open spec fn status_of(reason: Option<Seq<char>>) -> u16 {
    match reason {
        None => 200,
        Some(_) => 417,
    }
}

/// The body of the answer: a line that says that all is well, or what is not.
pub open spec fn body_of(reason: Option<Seq<char>>) -> Seq<char> {
    match reason {
        None => "ok\n"@,
        Some(why) => "unhealthy: "@ + why + "\n"@,
    }
}

impl State {
    /// What the probe answers for this state.
    pub fn response(&self) -> (response: Response)
        ensures
            response.status == status_of(self.reason()),
            response.body@ == body_of(self.reason()),
    {
        match self {
            State::Healthy => Response { status: 200, body: String::from_str("ok\n") },
            State::Unhealthy(why) => {
                let mut body = String::from_str("unhealthy: ");
                body.append(why.as_str());
                body.append("\n");
                Response { status: 417, body }
            },
        }
    }

    /// The reason where the state is unhealthy.
    pub open spec fn reason(&self) -> Option<Seq<char>> {
        match self {
            State::Healthy => None,
            State::Unhealthy(why) => Some(why@),
        }
    }

    /// Whether all is well.
    pub fn is_healthy(&self) -> (healthy: bool)
        ensures
            healthy == self.reason().is_none(),
    {
        match self {
            State::Healthy => true,
            State::Unhealthy(_) => false,
        }
    }
}

/// Reads the health off the machine.
pub fn health_check(machine: &WorkerSet) -> (state: State)
    ensures
        state.reason() == health_of(machine@),
{
    match machine.phase() {
        Phase::Running => State::Healthy,
        Phase::Startup => State::Unhealthy(String::from_str("still starting up")),
        Phase::Underprovisioned => State::Unhealthy(String::from_str("underprovisioned")),
        Phase::Faulted => State::Unhealthy(String::from_str("faulted")),
    }
}

} // verus!
