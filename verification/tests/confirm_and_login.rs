use zero2prod::routes::login::{
    login_after_session_update, login_after_validation, login_form_page, login_redirect, login_step,
    AuthError, LoginAction, LoginError, LoginEvent, LoginState, LoginStep,
};
use zero2prod::routes::subscriptions_confirm::{
    confirm_start, confirm_step, ConfirmAction, ConfirmEvent, ConfirmState, ConfirmStep,
    Parameters, TokenLookup,
};

fn lookup(found: TokenLookup) -> ConfirmStep {
    match confirm_start(Parameters { subscription_token: "tok".to_string() }) {
        ConfirmStep::Continue(ConfirmState::LookingUpToken, ConfirmAction::LookUpToken(t)) => {
            assert_eq!(t, "tok");
            confirm_step(ConfirmState::LookingUpToken, ConfirmEvent::TokenLookedUp(found))
        }
        _ => panic!("expected a lookup"),
    }
}

fn finished(step: &ConfirmStep) -> Option<u16> {
    match step {
        ConfirmStep::Finish(s) => Some(s.code()),
        _ => None,
    }
}

#[test]
fn an_unknown_token_is_unauthorized() {
    assert_eq!(finished(&lookup(TokenLookup::Unknown)), Some(401));
}

#[test]
fn a_failed_lookup_is_an_internal_error() {
    assert_eq!(finished(&lookup(TokenLookup::Failed)), Some(500));
}

#[test]
fn a_known_token_confirms_its_subscriber() {
    match lookup(TokenLookup::Found(42)) {
        ConfirmStep::Continue(state, ConfirmAction::ConfirmSubscriber(id)) => {
            assert_eq!(id, 42);
            let done = confirm_step(state, ConfirmEvent::SubscriberConfirmed(true));
            assert_eq!(finished(&done), Some(200));
        }
        _ => panic!("expected a confirmation"),
    }
    let failed = confirm_step(
        ConfirmState::ConfirmingSubscriber,
        ConfirmEvent::SubscriberConfirmed(false),
    );
    assert_eq!(finished(&failed), Some(500));
}

#[test]
fn login_error_messages() {
    assert_eq!(LoginError::AuthError("x".to_string()).message(), "Authentication failed");
    assert_eq!(LoginError::UnexpectedError("x".to_string()).message(), "Something went wrong");
}

#[test]
fn valid_credentials_renew_the_session_then_store_the_user_id() {
    let (state, action) = match login_after_validation(Ok(99)) {
        LoginStep::Continue(state, action) => (state, action),
        _ => panic!("expected the session renewal"),
    };
    assert!(matches!(state, LoginState::RenewingSession { user_id: 99 }));
    assert!(matches!(action, LoginAction::RenewSession));
    let (state, action) = match login_step(state, LoginEvent::SessionRenewed) {
        LoginStep::Continue(state, action) => (state, action),
        _ => panic!("expected the user id to be stored"),
    };
    assert!(matches!(state, LoginState::StoringUserId));
    assert!(matches!(action, LoginAction::InsertUserId(99)));
    match login_step(state, LoginEvent::UserIdStored(Ok(()))) {
        LoginStep::Finish(r) => {
            assert!(r.outcome.is_ok());
            assert_eq!(r.location, "/admin/dashboard");
            assert!(r.flash_messages.is_empty());
            assert_eq!(r.status().code(), 303);
        }
        _ => panic!("expected the answer"),
    }
    match login_step(LoginState::StoringUserId, LoginEvent::UserIdStored(Err("full".to_string()))) {
        LoginStep::Finish(r) => {
            assert_eq!(r.location, "/login");
            assert_eq!(r.flash_messages, vec!["Something went wrong"]);
        }
        _ => panic!("expected the answer"),
    }
    let r = login_after_session_update(Ok(()));
    assert_eq!(r.location, "/admin/dashboard");
}

#[test]
fn invalid_credentials_go_back_to_the_login_page() {
    match login_after_validation(Err(AuthError::InvalidCredentials("bad password".to_string()))) {
        LoginStep::Finish(r) => {
            assert!(matches!(r.outcome, Err(LoginError::AuthError(ref c)) if c == "bad password"));
            assert_eq!(r.location, "/login");
            assert_eq!(r.flash_messages, vec!["Authentication failed", "Authentication failed"]);
        }
        _ => panic!("expected a rejection"),
    }
    match login_after_validation(Err(AuthError::UnexpectedError("db down".to_string()))) {
        LoginStep::Finish(r) => {
            assert!(matches!(r.outcome, Err(LoginError::UnexpectedError(_))));
            assert_eq!(r.flash_messages, vec!["Something went wrong", "Something went wrong"]);
        }
        _ => panic!("expected a rejection"),
    }
}

#[test]
fn a_failed_session_update_goes_back_to_the_login_page() {
    let r = login_after_session_update(Err("serialization failed".to_string()));
    assert!(matches!(r.outcome, Err(LoginError::UnexpectedError(ref c)) if c == "serialization failed"));
    assert_eq!(r.location, "/login");
    assert_eq!(r.flash_messages, vec!["Something went wrong"]);
}

#[test]
fn login_redirect_flashes_once() {
    let r = login_redirect(LoginError::AuthError(String::new()));
    assert_eq!(r.location, "/login");
    assert_eq!(r.flash_messages, vec!["Authentication failed"]);
}

#[test]
fn the_login_page_shows_each_flash_message() {
    let page = login_form_page(&vec!["one".to_string(), "two".to_string()]);
    assert!(page.starts_with("<!DOCTYPE html>\n<html lang=\"en\">\n<head>\n"));
    assert!(page.contains("<body>\n    <p><i>one</i></p>\n<p><i>two</i></p>\n\n    <form action=\"/login\" method=\"post\">"));
    assert!(page.ends_with("</form>\n</body>\n</html>"));
    let empty = login_form_page(&vec![]);
    assert!(empty.contains("<body>\n    \n    <form"));
    assert_eq!(page.len(), empty.len() + "<p><i>one</i></p>\n<p><i>two</i></p>\n".len());
}
