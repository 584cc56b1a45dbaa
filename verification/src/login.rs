//! The controller's Matrix sign-in: log in with the stored credentials; if
//! that fails, register the controller as an admin account and log in again.
use vstd::prelude::*;

verus! {

/// Where the sign-in stands.
#[derive(PartialEq, Eq, Structural, Debug, Clone, Copy)]
pub enum LoginStep {
    /// The first login attempt is under way.
    FirstLogin,
    /// The first login failed; the admin account is being registered.
    Registering,
    /// The account was registered; the second login attempt is under way.
    SecondLogin,
    /// Logged in.
    Ready,
    /// Sign-in failed for good.
    Failed,
}

/// What the outside world reported.
#[derive(PartialEq, Eq, Structural, Debug, Clone, Copy)]
pub enum LoginEvent {
    LoginSucceeded,
    LoginFailed,
    AccountRegistered,
    RegistrationFailed,
}

/// What to do next.
#[derive(PartialEq, Eq, Structural, Debug, Clone, Copy)]
pub enum LoginAction {
    /// Log in with the controller's user name and password.
    Login,
    /// Register the controller's user name as an admin account.
    RegisterAdmin,
    /// Sign-in is complete.
    Done,
    /// Give up with an error.
    Abort,
}

/// The events that can follow a step.
pub open spec fn login_expects(step: LoginStep, event: LoginEvent) -> bool {
    match step {
        LoginStep::FirstLogin | LoginStep::SecondLogin => event == LoginEvent::LoginSucceeded
            || event == LoginEvent::LoginFailed,
        LoginStep::Registering => event == LoginEvent::AccountRegistered || event
            == LoginEvent::RegistrationFailed,
        _ => false,
    }
}

/// Whether `event` can follow `step`.
pub fn login_expected(step: LoginStep, event: LoginEvent) -> (r: bool)
    ensures
        r == login_expects(step, event),
{
    match step {
        LoginStep::FirstLogin | LoginStep::SecondLogin => match event {
            LoginEvent::LoginSucceeded | LoginEvent::LoginFailed => true,
            _ => false,
        },
        LoginStep::Registering => match event {
            LoginEvent::AccountRegistered | LoginEvent::RegistrationFailed => true,
            _ => false,
        },
        _ => false,
    }
}

/// The transition table of the sign-in.
pub open spec fn login_next(step: LoginStep, event: LoginEvent) -> (LoginStep, LoginAction) {
    match (step, event) {
        (LoginStep::FirstLogin, LoginEvent::LoginSucceeded) => (LoginStep::Ready, LoginAction::Done),
        (LoginStep::FirstLogin, LoginEvent::LoginFailed) => (LoginStep::Registering, LoginAction::RegisterAdmin),
        (LoginStep::Registering, LoginEvent::AccountRegistered) => (LoginStep::SecondLogin, LoginAction::Login),
        (LoginStep::SecondLogin, LoginEvent::LoginSucceeded) => (LoginStep::Ready, LoginAction::Done),
        _ => (LoginStep::Failed, LoginAction::Abort),
    }
}

/// Whether the controller's own account is registered as a homeserver admin:
/// it is, so that it can register the agents.
pub const CONTROLLER_ACCOUNT_ADMIN: bool = true;

/// The user name that the controller signs in with.
pub fn controller_username() -> (name: &'static str)
    ensures
        name@ == "controller"@,
{
    "controller"
}

/// The sign-in begins with a login attempt.
pub fn login_start() -> (r: (LoginStep, LoginAction))
    ensures
        r == (LoginStep::FirstLogin, LoginAction::Login),
{
    (LoginStep::FirstLogin, LoginAction::Login)
}

/// The next step and action after `event` in `step`.
pub fn login_step(step: LoginStep, event: LoginEvent) -> (r: (LoginStep, LoginAction))
    requires
        login_expects(step, event),
    ensures
        step == LoginStep::FirstLogin && event == LoginEvent::LoginSucceeded ==> r == (LoginStep::Ready, LoginAction::Done),
        step == LoginStep::FirstLogin && event == LoginEvent::LoginFailed ==> r == (LoginStep::Registering, LoginAction::RegisterAdmin),
        step == LoginStep::Registering && event == LoginEvent::AccountRegistered ==> r == (LoginStep::SecondLogin, LoginAction::Login),
        step == LoginStep::Registering && event == LoginEvent::RegistrationFailed ==> r == (LoginStep::Failed, LoginAction::Abort),
        step == LoginStep::SecondLogin && event == LoginEvent::LoginSucceeded ==> r == (LoginStep::Ready, LoginAction::Done),
        step == LoginStep::SecondLogin && event == LoginEvent::LoginFailed ==> r == (LoginStep::Failed, LoginAction::Abort),
        r == login_next(step, event),
{
    match (step, event) {
        (LoginStep::FirstLogin, LoginEvent::LoginSucceeded) => (LoginStep::Ready, LoginAction::Done),
        (LoginStep::FirstLogin, LoginEvent::LoginFailed) => (LoginStep::Registering, LoginAction::RegisterAdmin),
        (LoginStep::Registering, LoginEvent::AccountRegistered) => (LoginStep::SecondLogin, LoginAction::Login),
        (LoginStep::SecondLogin, LoginEvent::LoginSucceeded) => (LoginStep::Ready, LoginAction::Done),
        _ => (LoginStep::Failed, LoginAction::Abort),
    }
}

/// The step reached from the start after a sequence of reported events.
pub open spec fn login_run(events: Seq<LoginEvent>) -> LoginStep
    decreases events.len(),
{
    if events.len() == 0 {
        LoginStep::FirstLogin
    } else {
        login_next(login_run(events.drop_last()), events.last()).0
    }
}

/// The admin account is registered only after the first login failed, and
/// the controller is signed in only after a login succeeded: at the first
/// attempt, or at the second after a successful registration.
pub proof fn lemma_login_runs(events: Seq<LoginEvent>)
    ensures
        login_run(events) == LoginStep::Registering ==> events == seq![LoginEvent::LoginFailed],
        login_run(events) == LoginStep::Ready ==> events == seq![LoginEvent::LoginSucceeded]
            || events == seq![LoginEvent::LoginFailed, LoginEvent::AccountRegistered, LoginEvent::LoginSucceeded],
{
    if events.len() > 0 {
        let prefix = events.drop_last();
        if login_run(events) == LoginStep::Registering {
            assert(login_run(prefix) == LoginStep::FirstLogin);
            lemma_first_login_only_at_start(prefix);
            assert(events =~= seq![LoginEvent::LoginFailed]);
        }
        if login_run(events) == LoginStep::Ready {
            if login_run(prefix) == LoginStep::FirstLogin {
                lemma_first_login_only_at_start(prefix);
                assert(events =~= seq![LoginEvent::LoginSucceeded]);
            } else {
                assert(login_run(prefix) == LoginStep::SecondLogin);
                lemma_second_login(prefix);
                assert(events =~= seq![LoginEvent::LoginFailed, LoginEvent::AccountRegistered, LoginEvent::LoginSucceeded]);
            }
        }
    }
}

proof fn lemma_first_login_only_at_start(events: Seq<LoginEvent>)
    requires
        login_run(events) == LoginStep::FirstLogin,
    ensures
        events.len() == 0,
{
    if events.len() > 0 {
        let (s, a) = login_next(login_run(events.drop_last()), events.last());
        assert(s != LoginStep::FirstLogin);
    }
}

proof fn lemma_second_login(events: Seq<LoginEvent>)
    requires
        login_run(events) == LoginStep::SecondLogin,
    ensures
        events == seq![LoginEvent::LoginFailed, LoginEvent::AccountRegistered],
{
    let prefix = events.drop_last();
    assert(events.len() > 0);
    assert(login_run(prefix) == LoginStep::Registering);
    assert(prefix.len() > 0);
    let p2 = prefix.drop_last();
    assert(login_run(p2) == LoginStep::FirstLogin);
    lemma_first_login_only_at_start(p2);
    assert(events =~= seq![LoginEvent::LoginFailed, LoginEvent::AccountRegistered]);
}

/// Whatever an attempt that the sign-in asks for answers, the answer is
/// accepted: at the start and after every accepted event, a login action is
/// followed by a step that accepts both a successful and a failed login, and
/// a registration action by a step that accepts both outcomes of a
/// registration.
pub proof fn lemma_login_outcomes_accepted(step: LoginStep, event: LoginEvent)
    ensures
        login_expects(LoginStep::FirstLogin, LoginEvent::LoginSucceeded),
        login_expects(LoginStep::FirstLogin, LoginEvent::LoginFailed),
        login_expects(step, event) && login_next(step, event).1 == LoginAction::Login ==> {
            &&& login_expects(login_next(step, event).0, LoginEvent::LoginSucceeded)
            &&& login_expects(login_next(step, event).0, LoginEvent::LoginFailed)
        },
        login_expects(step, event) && login_next(step, event).1 == LoginAction::RegisterAdmin ==> {
            &&& login_expects(login_next(step, event).0, LoginEvent::AccountRegistered)
            &&& login_expects(login_next(step, event).0, LoginEvent::RegistrationFailed)
        },
{
}

/// Every step reached from the start while a login is under way accepts
/// both outcomes of that login; the step reached while the registration is
/// under way accepts both outcomes of it.
pub proof fn lemma_reachable_steps_accept_outcomes(events: Seq<LoginEvent>)
    ensures
        (login_run(events) == LoginStep::FirstLogin || login_run(events) == LoginStep::SecondLogin) ==> {
            &&& login_expects(login_run(events), LoginEvent::LoginSucceeded)
            &&& login_expects(login_run(events), LoginEvent::LoginFailed)
        },
        login_run(events) == LoginStep::Registering ==> {
            &&& login_expects(login_run(events), LoginEvent::AccountRegistered)
            &&& login_expects(login_run(events), LoginEvent::RegistrationFailed)
        },
{
}

} // verus!
