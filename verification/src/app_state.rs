use vstd::prelude::*;

verus! {

/// What the program as a whole is doing. It starts in the main menu
/// and ends in `Exit`.
#[derive(Clone, Copy, Debug, PartialEq, Eq, Hash, Structural)]
pub enum AppState {
    MainMenu,
    InGame,
    GameOver,
    Exit,
}

impl Default for AppState {
    fn default() -> (state: AppState)
        ensures
            state == AppState::MainMenu,
    {
        AppState::MainMenu
    }
}

/// A request to put the program into another state.
#[derive(Clone, Copy, Debug, PartialEq, Eq, Structural)]
pub enum AppStateTransition {
    ToMainMenu,
    ToInGame,
    ToGameOver,
    ToExit,
}

impl AppStateTransition {
    /// The state that the request asks for.
    pub open spec fn target(self) -> AppState {
        match self {
            AppStateTransition::ToMainMenu => AppState::MainMenu,
            AppStateTransition::ToInGame => AppState::InGame,
            AppStateTransition::ToGameOver => AppState::GameOver,
            AppStateTransition::ToExit => AppState::Exit,
        }
    }

    pub fn to_state(&self) -> (state: AppState)
        ensures
            state == self.target(),
    {
        match self {
            AppStateTransition::ToMainMenu => AppState::MainMenu,
            AppStateTransition::ToInGame => AppState::InGame,
            AppStateTransition::ToGameOver => AppState::GameOver,
            AppStateTransition::ToExit => AppState::Exit,
        }
    }
}

/// The state that is queued after the requests have been handled in
/// the order in which they came: each request replaces what was
/// queued before it, so the last one stands, and without a request
/// the queue is as it was.
pub open spec fn queued_state(
    queued: Option<AppState>,
    requests: Seq<AppStateTransition>,
) -> Option<AppState> {
    if requests.len() == 0 {
        queued
    } else {
        Some(requests.last().target())
    }
}

/// Handles the requests for another program state. This is the one
/// place that decides the next state; `next_state` holds it until the
/// program takes it up.
pub fn handle_transition_request(
    transition_requests: &Vec<AppStateTransition>,
    next_state: &mut Option<AppState>,
)
    ensures
        *final(next_state) == queued_state(*old(next_state), transition_requests@),
{
    let n: usize = transition_requests.len();
    let mut i: usize = 0;
    while i < n
        invariant
            i <= n,
            n == transition_requests@.len(),
            *next_state == queued_state(*old(next_state), transition_requests@.take(i as int)),
        decreases n - i,
    {
        *next_state = Some(transition_requests[i].to_state());
        i = i + 1;
    }
    assert(transition_requests@.take(n as int) == transition_requests@);
}

} // verus!
