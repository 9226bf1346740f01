//! The session login state machine.
//!
//! One passive agent-based attempt is made first; on failure the machine
//! falls back to an interactive secret prompt that retries indefinitely,
//! waiting a back-off interval after every failed attempt. The surrounding
//! process performs the attempts and feeds their outcomes back in as events.

use vstd::prelude::*;

verus! {

/// State of the login machine.
#[derive(Clone, Copy, PartialEq, Eq, Structural, Debug)]
pub enum AuthState {
    /// No authentication attempt has been made yet.
    Unauthenticated,
    /// The single agent-based attempt has been made and failed.
    AgentAttempted,
    /// At least one password attempt has failed; the next prompt follows a
    /// back-off wait.
    PasswordRetry,
    /// The session is authenticated; channels may now be opened.
    Authenticated,
}

/// Outcome of one authentication attempt, as reported by the transport.
#[derive(Clone, Copy, PartialEq, Eq, Structural, Debug)]
pub enum AuthEvent {
    /// The agent-based attempt authenticated the session.
    AgentOk,
    /// The agent-based attempt failed.
    AgentFailed,
    /// A password attempt authenticated the session.
    PasswordOk,
    /// A password attempt failed.
    PasswordFailed,
}

/// What the caller must do after one step of the login machine.
#[derive(Clone, Copy, PartialEq, Eq, Structural, Debug)]
pub enum AuthAction {
    /// Prompt the operator for a secret and attempt password authentication.
    PromptPassword,
    /// Wait one back-off interval, then prompt and attempt again.
    BackOffThenPrompt,
    /// Authentication is complete; start serving connections.
    Proceed,
}

/// Which events can arise in which state: agent outcomes only before the
/// agent attempt has been made, password outcomes only afterwards, and
/// nothing once the session is authenticated.
pub open spec fn auth_event_allowed(state: AuthState, event: AuthEvent) -> bool {
    match state {
        AuthState::Unauthenticated => event is AgentOk || event is AgentFailed,
        AuthState::AgentAttempted => event is PasswordOk || event is PasswordFailed,
        AuthState::PasswordRetry => event is PasswordOk || event is PasswordFailed,
        AuthState::Authenticated => false,
    }
}

/// The state after one attempt outcome: any success authenticates, an agent
/// failure moves on to password prompting, and a password failure stays in
/// the retry loop.
pub open spec fn spec_auth_step(state: AuthState, event: AuthEvent) -> AuthState {
    match event {
        AuthEvent::AgentOk => AuthState::Authenticated,
        AuthEvent::PasswordOk => AuthState::Authenticated,
        AuthEvent::AgentFailed => AuthState::AgentAttempted,
        AuthEvent::PasswordFailed => AuthState::PasswordRetry,
    }
}

/// The action owed after an attempt outcome: proceed on success, prompt
/// directly after the agent failure, and back off before re-prompting after
/// a failed password.
pub open spec fn spec_auth_action(event: AuthEvent) -> AuthAction {
    match event {
        AuthEvent::AgentOk => AuthAction::Proceed,
        AuthEvent::PasswordOk => AuthAction::Proceed,
        AuthEvent::AgentFailed => AuthAction::PromptPassword,
        AuthEvent::PasswordFailed => AuthAction::BackOffThenPrompt,
    }
}

/// Advances the login machine by one attempt outcome.
pub fn auth_step(state: AuthState, event: AuthEvent) -> (step: (AuthState, AuthAction))
    requires
        auth_event_allowed(state, event),
    ensures
        step.0 == spec_auth_step(state, event),
        step.1 == spec_auth_action(event),
{
    match event {
        AuthEvent::AgentOk => (AuthState::Authenticated, AuthAction::Proceed),
        AuthEvent::PasswordOk => (AuthState::Authenticated, AuthAction::Proceed),
        AuthEvent::AgentFailed => (AuthState::AgentAttempted, AuthAction::PromptPassword),
        AuthEvent::PasswordFailed => (AuthState::PasswordRetry, AuthAction::BackOffThenPrompt),
    }
}

/// The state after a whole sequence of attempt outcomes, earliest first.
pub open spec fn auth_run(state: AuthState, events: Seq<AuthEvent>) -> AuthState
    decreases events.len(),
{
    if events.len() == 0 {
        state
    } else {
        auth_run(spec_auth_step(state, events[0]), events.drop_first())
    }
}

/// Holds when every event of the sequence is allowed in the state it is fed
/// into.
pub open spec fn auth_run_allowed(state: AuthState, events: Seq<AuthEvent>) -> bool
    decreases events.len(),
{
    events.len() == 0 || (auth_event_allowed(state, events[0]) && auth_run_allowed(
        spec_auth_step(state, events[0]),
        events.drop_first(),
    ))
}

/// Drives the login machine over a whole sequence of attempt outcomes.
pub fn auth_outcome(start: AuthState, events: &Vec<AuthEvent>) -> (end: AuthState)
    requires
        auth_run_allowed(start, events@),
    ensures
        end == auth_run(start, events@),
{
    let mut state = start;
    let mut i: usize = 0;
    proof {
        assert(events@.skip(0) =~= events@);
    }
    while i < events.len()
        invariant
            i <= events@.len(),
            auth_run_allowed(state, events@.skip(i as int)),
            auth_run(start, events@) == auth_run(state, events@.skip(i as int)),
        decreases events@.len() - i,
    {
        proof {
            assert(events@.skip(i as int)[0] == events@[i as int]);
            assert(events@.skip(i as int).drop_first() =~= events@.skip(i as int + 1));
        }
        let (next, _action) = auth_step(state, events[i]);
        state = next;
        i += 1;
    }
    state
}

/// However many password attempts fail, the machine never leaves the retry
/// loop except through a success, and the first successful attempt leaves it
/// authenticated: any run of failed attempts followed by one successful
/// attempt ends in the `Authenticated` state.
pub proof fn lemma_retries_end_authenticated(state: AuthState, events: Seq<AuthEvent>)
    requires
        state == AuthState::AgentAttempted || state == AuthState::PasswordRetry,
        events.len() > 0,
        forall|i: int| 0 <= i < events.len() - 1 ==> events[i] == AuthEvent::PasswordFailed,
        events.last() == AuthEvent::PasswordOk,
    ensures
        auth_run_allowed(state, events),
        auth_run(state, events) == AuthState::Authenticated,
    decreases events.len(),
{
    if events.len() == 1 {
        assert(events[0] == AuthEvent::PasswordOk);
        assert(events.drop_first().len() == 0);
        assert(auth_run(AuthState::Authenticated, events.drop_first())
            == AuthState::Authenticated);
        assert(auth_run_allowed(AuthState::Authenticated, events.drop_first()));
    } else {
        assert(events[0] == AuthEvent::PasswordFailed);
        let rest = events.drop_first();
        assert(rest.last() == events.last());
        assert(forall|i: int| 0 <= i < rest.len() - 1 ==> rest[i] == events[i + 1]);
        lemma_retries_end_authenticated(AuthState::PasswordRetry, rest);
    }
}

} // verus!
