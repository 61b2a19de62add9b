//! How far a preloader is with loading the code: the states it goes through before it can
//! fork workers.

use vstd::prelude::*;

use crate::preloader::PreloaderMessage;
use crate::preloader::PreloaderSpecificMessage;

verus! {

/// The preloader runs and has not said anything yet.
#[derive(Clone, PartialEq, Debug)]
pub struct Starting {}

/// The preloader is loading files.
#[derive(Clone, PartialEq, Debug)]
pub struct Loading {}

/// The preloader has loaded the code and stands by to fork workers.
#[derive(Clone, PartialEq, Debug)]
pub struct Ready {}

/// The preloader could not load the code.
#[derive(Clone, PartialEq, Debug)]
pub struct Failed {}

/// The state of a preloader.
#[derive(Clone, PartialEq, Debug)]
pub enum PreloaderState {
    Starting(Starting),
    Loading(Loading),
    Ready(Ready),
    Failed(Failed),
}

/// What a message makes of a preloader that has not said anything yet: the first file that
/// it loads takes it to loading, a log line leaves it where it is, and anything else is a
/// failure.
pub open spec fn after_starting(msg: PreloaderMessage) -> PreloaderState {
    match msg {
        PreloaderMessage::Preloader(PreloaderSpecificMessage::Loading { .. }) => {
            PreloaderState::Loading(Loading {  })
        },
        PreloaderMessage::Preloader(PreloaderSpecificMessage::Log { .. }) => {
            PreloaderState::Starting(Starting {  })
        },
        _ => PreloaderState::Failed(Failed {  }),
    }
}

/// What a message makes of a preloader that is loading: it is ready when it says so, it has
/// failed when it reports an error or a failed command, and it goes on loading after
/// anything else.
pub open spec fn after_loading(msg: PreloaderMessage) -> PreloaderState {
    match msg {
        PreloaderMessage::Preloader(PreloaderSpecificMessage::Ready) => {
            PreloaderState::Ready(Ready {  })
        },
        PreloaderMessage::Preloader(PreloaderSpecificMessage::Error { .. }) => {
            PreloaderState::Failed(Failed {  })
        },
        PreloaderMessage::Preloader(PreloaderSpecificMessage::Failed { .. }) => {
            PreloaderState::Failed(Failed {  })
        },
        _ => PreloaderState::Loading(Loading {  }),
    }
}

/// What a message makes of a preloader in any state: once it is ready or has failed,
/// nothing.
pub open spec fn after_message(state: PreloaderState, msg: PreloaderMessage) -> PreloaderState {
    match state {
        PreloaderState::Starting(_) => after_starting(msg),
        PreloaderState::Loading(_) => after_loading(msg),
        PreloaderState::Ready(_) => state,
        PreloaderState::Failed(_) => state,
    }
}

/// The state after a run of messages, the first message first.
pub open spec fn after_messages(state: PreloaderState, msgs: Seq<PreloaderMessage>) -> PreloaderState
    decreases msgs.len(),
{
    if msgs.len() == 0 {
        state
    } else {
        after_message(after_messages(state, msgs.drop_last()), msgs.last())
    }
}

impl Starting {
    /// Takes the first thing that the preloader says.
    pub fn on_preloader_message(self, msg: PreloaderMessage) -> (next: PreloaderState)
        ensures
            next == after_starting(msg),
    {
        match msg {
            PreloaderMessage::Preloader(PreloaderSpecificMessage::Loading { file: _ }) => {
                PreloaderState::loading()
            },
            PreloaderMessage::Preloader(
                PreloaderSpecificMessage::Log { level: _, msg: _, kv: _ },
            ) => PreloaderState::starting(),
            _ => PreloaderState::failed(),
        }
    }
}

impl Loading {
    /// Takes what the preloader says while it loads.
    pub fn on_preloader_message(self, msg: PreloaderMessage) -> (next: PreloaderState)
        ensures
            next == after_loading(msg),
    {
        match msg {
            PreloaderMessage::Preloader(PreloaderSpecificMessage::Ready) => PreloaderState::ready(),
            PreloaderMessage::Preloader(
                PreloaderSpecificMessage::Error { message: _, error: _ },
            ) => PreloaderState::failed(),
            PreloaderMessage::Preloader(PreloaderSpecificMessage::Failed { id: _, message: _ }) => {
                PreloaderState::failed()
            },
            _ => PreloaderState::loading(),
        }
    }
}

impl PreloaderState {
    /// The state of a preloader that has not said anything yet.
    pub fn starting() -> (state: PreloaderState)
        ensures
            state == PreloaderState::Starting(Starting {  }),
    {
        PreloaderState::Starting(Starting {  })
    }

    /// The state of a preloader that is loading.
    pub fn loading() -> (state: PreloaderState)
        ensures
            state == PreloaderState::Loading(Loading {  }),
    {
        PreloaderState::Loading(Loading {  })
    }

    /// The state of a preloader that is ready.
    pub fn ready() -> (state: PreloaderState)
        ensures
            state == PreloaderState::Ready(Ready {  }),
    {
        PreloaderState::Ready(Ready {  })
    }

    /// The state of a preloader that has failed.
    pub fn failed() -> (state: PreloaderState)
        ensures
            state == PreloaderState::Failed(Failed {  }),
    {
        PreloaderState::Failed(Failed {  })
    }

    /// Takes a message of the preloader.
    pub fn on_preloader_message(self, msg: PreloaderMessage) -> (next: PreloaderState)
        ensures
            next == after_message(self, msg),
    {
        match self {
            PreloaderState::Starting(starting) => starting.on_preloader_message(msg),
            PreloaderState::Loading(loading) => loading.on_preloader_message(msg),
            PreloaderState::Ready(ready) => PreloaderState::Ready(ready),
            PreloaderState::Failed(failed) => PreloaderState::Failed(failed),
        }
    }

    /// A copy of the state.
    pub fn clone_state(&self) -> (copy: PreloaderState)
        ensures
            copy == *self,
    {
        match self {
            PreloaderState::Starting(_) => PreloaderState::starting(),
            PreloaderState::Loading(_) => PreloaderState::loading(),
            PreloaderState::Ready(_) => PreloaderState::ready(),
            PreloaderState::Failed(_) => PreloaderState::failed(),
        }
    }

    /// Whether the preloader is still on its way: neither ready nor failed.
    pub fn is_pending(&self) -> (pending: bool)
        ensures
            pending == (self is Starting || self is Loading),
    {
        match self {
            PreloaderState::Starting(_) => true,
            PreloaderState::Loading(_) => true,
            PreloaderState::Ready(_) => false,
            PreloaderState::Failed(_) => false,
        }
    }

    /// Whether the preloader can fork workers.
    pub fn is_ready(&self) -> (ready: bool)
        ensures
            ready == (self is Ready),
    {
        match self {
            PreloaderState::Ready(_) => true,
            _ => false,
        }
    }
}

/// A preloader that is ready or has failed stays so, whatever it says.
pub proof fn law_settled_stays(state: PreloaderState, msgs: Seq<PreloaderMessage>)
    requires
        state is Ready || state is Failed,
    ensures
        after_messages(state, msgs) == state,
    decreases msgs.len(),
{
    if msgs.len() > 0 {
        law_settled_stays(state, msgs.drop_last());
    }
}

/// A preloader gets ready in one way only: it says that it is ready while it is loading.
pub proof fn law_ready_after_loading(state: PreloaderState, msg: PreloaderMessage)
    requires
        !(state is Ready),
        after_message(state, msg) is Ready,
    ensures
        state is Loading,
        msg == PreloaderMessage::Preloader(PreloaderSpecificMessage::Ready),
{
}

} // verus!
