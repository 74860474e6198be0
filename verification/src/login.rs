//! The decisions of a login conversation with greetd.
//!
//! The greeter asks greetd to create a session for the username and at
//! once answers the first question with the password. What greetd replies
//! then decides whether the session is started, and what the reply to the
//! start decides whether the login succeeded.
use vstd::prelude::*;

verus! {

/// The kind of an authentication question from greetd.
#[derive(Debug, Clone, Copy, PartialEq, Eq, Structural)]
pub enum AuthMessageKind {
    /// A question whose answer may be shown.
    Visible,
    /// A question whose answer must be kept secret.
    Secret,
    /// An information message.
    Info,
    /// An error message.
    Error,
}

/// A reply from greetd, as far as a login depends on it.
#[derive(Debug, Clone, Copy, PartialEq, Eq, Structural)]
pub enum Reply {
    Success,
    Error,
    AuthMessage(AuthMessageKind),
}

/// The reply a login waits for.
#[derive(Debug, Clone, Copy, PartialEq, Eq, Structural)]
pub enum LoginStage {
    /// The reply to the username and password.
    AwaitingAuthReply,
    /// The reply to starting the session, after a secret question.
    AwaitingStartAfterSecret,
    /// The reply to starting the session, after greetd accepted the user
    /// at once.
    AwaitingStartAfterSuccess,
}

/// Why a login failed.
#[derive(Debug, Clone, Copy, PartialEq, Eq, Structural)]
pub enum LoginFailure {
    WrongUsernameOrPassword,
    WrongUsername,
    Unknown,
}

/// What to do after a reply.
#[derive(Debug, Clone, Copy, PartialEq, Eq)]
pub enum LoginStep {
    /// Ask greetd to start the session, and wait in this stage.
    StartSession(LoginStage),
    /// The login is over.
    Finish(Result<(), LoginFailure>),
}

/// What to do when greetd gives `reply` in `stage`.
pub open spec fn login_step_spec(stage: LoginStage, reply: Reply) -> LoginStep {
    match stage {
        LoginStage::AwaitingAuthReply => match reply {
            Reply::AuthMessage(AuthMessageKind::Secret) => LoginStep::StartSession(
                LoginStage::AwaitingStartAfterSecret,
            ),
            Reply::AuthMessage(_) => LoginStep::Finish(Err(LoginFailure::WrongUsername)),
            Reply::Success => LoginStep::StartSession(LoginStage::AwaitingStartAfterSuccess),
            Reply::Error => LoginStep::Finish(Err(LoginFailure::Unknown)),
        },
        LoginStage::AwaitingStartAfterSecret => match reply {
            Reply::Success => LoginStep::Finish(Ok(())),
            _ => LoginStep::Finish(Err(LoginFailure::WrongUsernameOrPassword)),
        },
        LoginStage::AwaitingStartAfterSuccess => LoginStep::Finish(Ok(())),
    }
}

/// What to do when greetd gives `reply` in `stage`.
pub fn login_step(stage: LoginStage, reply: Reply) -> (r: LoginStep)
    ensures
        r == login_step_spec(stage, reply),
{
    match stage {
        LoginStage::AwaitingAuthReply => match reply {
            Reply::AuthMessage(AuthMessageKind::Secret) => LoginStep::StartSession(
                LoginStage::AwaitingStartAfterSecret,
            ),
            Reply::AuthMessage(_) => LoginStep::Finish(Err(LoginFailure::WrongUsername)),
            Reply::Success => LoginStep::StartSession(LoginStage::AwaitingStartAfterSuccess),
            Reply::Error => LoginStep::Finish(Err(LoginFailure::Unknown)),
        },
        LoginStage::AwaitingStartAfterSecret => match reply {
            Reply::Success => LoginStep::Finish(Ok(())),
            _ => LoginStep::Finish(Err(LoginFailure::WrongUsernameOrPassword)),
        },
        LoginStage::AwaitingStartAfterSuccess => LoginStep::Finish(Ok(())),
    }
}

impl LoginFailure {
    /// The message shown for this failure.
    pub fn message(&self) -> (r: &'static str)
        ensures
            r@ == match self {
                LoginFailure::WrongUsernameOrPassword => "Wrong username or password"@,
                LoginFailure::WrongUsername => "Wrong username"@,
                LoginFailure::Unknown => "Unknown error"@,
            },
    {
        match self {
            LoginFailure::WrongUsernameOrPassword => "Wrong username or password",
            LoginFailure::WrongUsername => "Wrong username",
            LoginFailure::Unknown => "Unknown error",
        }
    }
}

/// A login ends with at most two replies: the session is started at most
/// once, and the reply to the start always ends the login.
pub proof fn login_ends_after_two_replies(first: Reply, second: Reply)
    ensures
        login_step_spec(LoginStage::AwaitingAuthReply, first) matches LoginStep::StartSession(
            next,
        ) ==> login_step_spec(next, second) is Finish,
{
}

/// A login succeeds only if greetd answered one of the two requests with
/// success.
pub proof fn login_succeeds_only_on_success(first: Reply, second: Reply)
    ensures
        login_step_spec(LoginStage::AwaitingAuthReply, first) matches LoginStep::StartSession(
            next,
        ) && login_step_spec(next, second) == LoginStep::Finish(Ok(())) ==> first == Reply::Success
            || second == Reply::Success,
        login_step_spec(LoginStage::AwaitingAuthReply, first) != LoginStep::Finish(Ok(())),
{
}

/// A session is started only after greetd accepted the user outright or
/// asked a secret question, which the password answers.
pub proof fn session_started_only_after_acceptance_or_secret(first: Reply)
    ensures
        login_step_spec(LoginStage::AwaitingAuthReply, first) is StartSession <==> (first
            == Reply::Success || first == Reply::AuthMessage(AuthMessageKind::Secret)),
{
}

/// What greetd's first reply decides: outright acceptance and a secret
/// question lead to starting the session, any other question means the
/// username was wrong, and an error ends the login with an unknown error.
pub proof fn first_reply_decides(first: Reply)
    ensures
        first == Reply::Success ==> login_step_spec(LoginStage::AwaitingAuthReply, first)
            == LoginStep::StartSession(LoginStage::AwaitingStartAfterSuccess),
        first == Reply::AuthMessage(AuthMessageKind::Secret) ==> login_step_spec(
            LoginStage::AwaitingAuthReply,
            first,
        ) == LoginStep::StartSession(LoginStage::AwaitingStartAfterSecret),
        first matches Reply::AuthMessage(k) && k != AuthMessageKind::Secret ==> login_step_spec(
            LoginStage::AwaitingAuthReply,
            first,
        ) == LoginStep::Finish(Err(LoginFailure::WrongUsername)),
        first == Reply::Error ==> login_step_spec(LoginStage::AwaitingAuthReply, first)
            == LoginStep::Finish(Err(LoginFailure::Unknown)),
{
}

/// What the reply to starting the session decides: after outright
/// acceptance the login succeeds whatever it is; after the password
/// answered a secret question it succeeds exactly on success, and fails
/// otherwise as a wrong username or password.
pub proof fn start_reply_decides(second: Reply)
    ensures
        login_step_spec(LoginStage::AwaitingStartAfterSuccess, second) == LoginStep::Finish(
            Ok(()),
        ),
        login_step_spec(LoginStage::AwaitingStartAfterSecret, second) == (if second
            == Reply::Success {
            LoginStep::Finish(Ok(()))
        } else {
            LoginStep::Finish(Err(LoginFailure::WrongUsernameOrPassword))
        }),
{
}

} // verus!
