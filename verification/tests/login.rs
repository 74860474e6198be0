use ddlm::login::{login_step, AuthMessageKind, LoginFailure, LoginStage, LoginStep, Reply};

#[test]
fn secret_question_starts_session() {
    assert_eq!(
        login_step(LoginStage::AwaitingAuthReply, Reply::AuthMessage(AuthMessageKind::Secret)),
        LoginStep::StartSession(LoginStage::AwaitingStartAfterSecret)
    );
    assert_eq!(login_step(LoginStage::AwaitingStartAfterSecret, Reply::Success), LoginStep::Finish(Ok(())));
}

#[test]
fn refused_start_after_secret_is_wrong_password() {
    for r in [Reply::Error, Reply::AuthMessage(AuthMessageKind::Info), Reply::AuthMessage(AuthMessageKind::Secret)] {
        assert_eq!(
            login_step(LoginStage::AwaitingStartAfterSecret, r),
            LoginStep::Finish(Err(LoginFailure::WrongUsernameOrPassword))
        );
    }
}

#[test]
fn other_questions_mean_wrong_username() {
    for k in [AuthMessageKind::Visible, AuthMessageKind::Info, AuthMessageKind::Error] {
        assert_eq!(
            login_step(LoginStage::AwaitingAuthReply, Reply::AuthMessage(k)),
            LoginStep::Finish(Err(LoginFailure::WrongUsername))
        );
    }
}

#[test]
fn immediate_success_starts_session_and_succeeds() {
    assert_eq!(
        login_step(LoginStage::AwaitingAuthReply, Reply::Success),
        LoginStep::StartSession(LoginStage::AwaitingStartAfterSuccess)
    );
    for r in [Reply::Success, Reply::Error, Reply::AuthMessage(AuthMessageKind::Secret)] {
        assert_eq!(login_step(LoginStage::AwaitingStartAfterSuccess, r), LoginStep::Finish(Ok(())));
    }
}

#[test]
fn error_reply_is_unknown_error() {
    assert_eq!(
        login_step(LoginStage::AwaitingAuthReply, Reply::Error),
        LoginStep::Finish(Err(LoginFailure::Unknown))
    );
}

#[test]
fn failure_messages() {
    assert_eq!(LoginFailure::WrongUsernameOrPassword.message(), "Wrong username or password");
    assert_eq!(LoginFailure::WrongUsername.message(), "Wrong username");
    assert_eq!(LoginFailure::Unknown.message(), "Unknown error");
}
