//! The shutdown confirmation flow: a small state machine that intercepts the
//! host's close-request signal and requires an explicit user decision before
//! the application may terminate.

use vstd::prelude::*;

verus! {

/// Where the shutdown flow stands.
#[derive(Clone, Copy, Debug, PartialEq, Eq, Structural)]
pub enum ShutdownState {
    /// No close request seen, or the last one was cancelled.
    Idle,
    /// A close request was intercepted; the confirmation prompt is open.
    ConfirmPending,
    /// The user confirmed; termination proceeds.
    Confirmed,
}

/// What the shutdown flow can observe in one frame.
#[derive(Clone, Copy, Debug, PartialEq, Eq, Structural)]
pub enum ShutdownEvent {
    /// The host signalled that the window should close.
    CloseRequested,
    /// The user chose "Cancel" in the confirmation prompt.
    CancelChosen,
    /// The user chose "Save & Exit" in the confirmation prompt.
    SaveAndExitChosen,
    /// The user chose "Discard & Exit" in the confirmation prompt.
    DiscardAndExitChosen,
}

/// What the host shell must do in response to a shutdown-flow step.
#[derive(Clone, Copy, Debug, PartialEq, Eq, Structural)]
pub enum HostAction {
    /// Nothing to do.
    NoAction,
    /// Cancel the host's default close action and open the confirmation prompt.
    CancelCloseAndPrompt,
    /// Persist the application state, then re-issue the close signal.
    SaveThenReissueClose,
    /// Re-issue the close signal without saving.
    ReissueClose,
    /// Let the close request pass through: terminate.
    AllowClose,
}

/// The complete transition table of the shutdown flow.
///
/// A close request in any unconfirmed state suppresses termination and opens
/// the prompt; once confirmed, a close request passes through. The prompt's
/// three buttons only act while the prompt is pending.
pub open spec fn spec_step(s: ShutdownState, e: ShutdownEvent) -> (ShutdownState, HostAction) {
    match (s, e) {
        (ShutdownState::Idle, ShutdownEvent::CloseRequested) => (
            ShutdownState::ConfirmPending,
            HostAction::CancelCloseAndPrompt,
        ),
        (ShutdownState::ConfirmPending, ShutdownEvent::CloseRequested) => (
            ShutdownState::ConfirmPending,
            HostAction::CancelCloseAndPrompt,
        ),
        (ShutdownState::Confirmed, ShutdownEvent::CloseRequested) => (
            ShutdownState::Confirmed,
            HostAction::AllowClose,
        ),
        (ShutdownState::ConfirmPending, ShutdownEvent::CancelChosen) => (
            ShutdownState::Idle,
            HostAction::NoAction,
        ),
        (ShutdownState::ConfirmPending, ShutdownEvent::SaveAndExitChosen) => (
            ShutdownState::Confirmed,
            HostAction::SaveThenReissueClose,
        ),
        (ShutdownState::ConfirmPending, ShutdownEvent::DiscardAndExitChosen) => (
            ShutdownState::Confirmed,
            HostAction::ReissueClose,
        ),
        // Prompt buttons are only visible while the prompt is pending:
        // in any other state they change nothing.
        (_, _) => (s, HostAction::NoAction),
    }
}

/// Advance the shutdown flow by one observed event; returns the next state
/// and the action the host shell must perform.
pub fn step(s: ShutdownState, e: ShutdownEvent) -> (r: (ShutdownState, HostAction))
    ensures
        r == spec_step(s, e),
{
    match (s, e) {
        (ShutdownState::Idle, ShutdownEvent::CloseRequested) => (
            ShutdownState::ConfirmPending,
            HostAction::CancelCloseAndPrompt,
        ),
        (ShutdownState::ConfirmPending, ShutdownEvent::CloseRequested) => (
            ShutdownState::ConfirmPending,
            HostAction::CancelCloseAndPrompt,
        ),
        (ShutdownState::Confirmed, ShutdownEvent::CloseRequested) => (
            ShutdownState::Confirmed,
            HostAction::AllowClose,
        ),
        (ShutdownState::ConfirmPending, ShutdownEvent::CancelChosen) => (
            ShutdownState::Idle,
            HostAction::NoAction,
        ),
        (ShutdownState::ConfirmPending, ShutdownEvent::SaveAndExitChosen) => (
            ShutdownState::Confirmed,
            HostAction::SaveThenReissueClose,
        ),
        (ShutdownState::ConfirmPending, ShutdownEvent::DiscardAndExitChosen) => (
            ShutdownState::Confirmed,
            HostAction::ReissueClose,
        ),
        (_, _) => (s, HostAction::NoAction),
    }
}

/// Law: a close request while idle suppresses termination and opens the
/// prompt; Cancel returns to idle; Discard & Exit confirms and re-issues the
/// close; a further close request once confirmed passes through without
/// re-opening the prompt.
pub proof fn lemma_shutdown_transitions()
    ensures
        spec_step(ShutdownState::Idle, ShutdownEvent::CloseRequested) == (
            ShutdownState::ConfirmPending,
            HostAction::CancelCloseAndPrompt,
        ),
        spec_step(ShutdownState::ConfirmPending, ShutdownEvent::CancelChosen) == (
            ShutdownState::Idle,
            HostAction::NoAction,
        ),
        spec_step(ShutdownState::ConfirmPending, ShutdownEvent::DiscardAndExitChosen) == (
            ShutdownState::Confirmed,
            HostAction::ReissueClose,
        ),
        spec_step(ShutdownState::Confirmed, ShutdownEvent::CloseRequested) == (
            ShutdownState::Confirmed,
            HostAction::AllowClose,
        ),
{
}

/// Law: once confirmed, no event leaves the confirmed state, so termination
/// can no longer be blocked.
pub proof fn lemma_confirmed_is_final(e: ShutdownEvent)
    ensures
        spec_step(ShutdownState::Confirmed, e).0 == ShutdownState::Confirmed,
{
}

} // verus!
