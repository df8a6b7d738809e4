use zero2prod::domain::{NewSubscriber, SubscriberEmail};
use zero2prod::http::HttpStatus;
use zero2prod::routes::subscriptions::{
    confirmation_email, generate_subscription_token, subscription_token_from, subscribe_start, subscribe_step, FormData,
    StoreTokenError, SubscribeAction, SubscribeEvent, SubscribeState, SubscribeStep,
    SUBSCRIPTION_TOKEN_LENGTH,
};

fn valid_form() -> FormData {
    FormData { email: "ursula_le_guin@gmail.com".to_string(), name: "le guin".to_string() }
}

fn status(step: &SubscribeStep) -> Option<u16> {
    match step {
        SubscribeStep::Finish(Ok(s)) => Some(s.code()),
        _ => None,
    }
}

#[test]
fn tokens_are_25_alphanumeric_characters() {
    for _ in 0..20 {
        let t = generate_subscription_token();
        assert_eq!(t.chars().count(), SUBSCRIPTION_TOKEN_LENGTH);
        assert_eq!(t.len(), 25);
        assert!(t.chars().all(|c| c.is_ascii_alphanumeric()));
    }
}

#[test]
fn the_token_is_made_of_the_drawn_characters_in_order() {
    let samples: Vec<u8> = b"abcdefghijklmnopqrstuvwxY".to_vec();
    assert_eq!(subscription_token_from(&samples), "abcdefghijklmnopqrstuvwxY");
    let samples: Vec<u8> = b"0123456789ABCDEFGHIJKLMNO".to_vec();
    assert_eq!(subscription_token_from(&samples), "0123456789ABCDEFGHIJKLMNO");
}

#[test]
fn tokens_differ() {
    assert_ne!(generate_subscription_token(), generate_subscription_token());
}

#[test]
fn the_confirmation_email_links_to_the_token() {
    let subscriber = NewSubscriber::try_from(valid_form()).unwrap();
    let e = confirmation_email(subscriber, "http://127.0.0.1", "abc123");
    assert_eq!(e.recipient.as_ref(), "ursula_le_guin@gmail.com");
    assert_eq!(e.subject, "Welcome!");
    assert_eq!(
        e.plain_body,
        "Welcome to our newsletter!\nVisit http://127.0.0.1/subscriptions/confirm?subscription_token=abc123 to confirm your subscription."
    );
    assert_eq!(
        e.html_body,
        "Welcome to our newsletter!<br />Click <a href=\"http://127.0.0.1/subscriptions/confirm?subscription_token=abc123\">here</a> to confirm your subscription."
    );
}

#[test]
fn subscribe_returns_a_400_for_invalid_data() {
    let cases = vec![
        ("", "ursula_le_guin@gmail.com"),
        ("Ursula", ""),
        ("Ursula", "definitely-not-an-email"),
    ];
    for (name, email) in cases {
        let form = FormData { email: email.to_string(), name: name.to_string() };
        let step = subscribe_start(form, "http://localhost".to_string());
        assert_eq!(status(&step), Some(400));
    }
}

/// Drives the handler, answering each action with success, and returns the
/// stored token, the e-mail's plain body and the final status.
fn run_all_successful() -> (String, String, u16) {
    let mut step = subscribe_start(valid_form(), "http://localhost".to_string());
    let mut stored = String::new();
    let mut body = String::new();
    loop {
        match step {
            SubscribeStep::Finish(Ok(s)) => return (stored, body, s.code()),
            SubscribeStep::Finish(Err(_)) => panic!("token storage reported failure"),
            SubscribeStep::Continue(state, action) => {
                let event = match action {
                    SubscribeAction::BeginTransaction => SubscribeEvent::TransactionBegun(true),
                    SubscribeAction::InsertSubscriber { email, name } => {
                        assert_eq!(email, "ursula_le_guin@gmail.com");
                        assert_eq!(name, "le guin");
                        SubscribeEvent::SubscriberInserted(Some(7))
                    }
                    SubscribeAction::StoreToken { subscriber_id, token } => {
                        assert_eq!(subscriber_id, 7);
                        stored = token;
                        SubscribeEvent::TokenStored(Ok(()))
                    }
                    SubscribeAction::Commit => SubscribeEvent::Committed(true),
                    SubscribeAction::SendEmail(e) => {
                        body = e.plain_body;
                        SubscribeEvent::EmailSent(true)
                    }
                };
                step = subscribe_step(state, event);
            }
        }
    }
}

#[test]
fn subscribe_returns_a_200_when_every_step_succeeds() {
    let (token, body, code) = run_all_successful();
    assert_eq!(code, 200);
    assert_eq!(token.len(), 25);
    assert!(body.contains(&format!("subscription_token={} ", token)));
}

/// Runs the handler with the `fail_at`-th action failing.
fn run_failing_at(fail_at: usize) -> (SubscribeStep, usize) {
    let mut step = subscribe_start(valid_form(), "http://localhost".to_string());
    let mut n = 0;
    loop {
        match step {
            SubscribeStep::Finish(_) => return (step, n),
            SubscribeStep::Continue(state, action) => {
                let ok = n != fail_at;
                n += 1;
                let event = match action {
                    SubscribeAction::BeginTransaction => SubscribeEvent::TransactionBegun(ok),
                    SubscribeAction::InsertSubscriber { .. } => {
                        SubscribeEvent::SubscriberInserted(if ok { Some(1) } else { None })
                    }
                    SubscribeAction::StoreToken { .. } => SubscribeEvent::TokenStored(if ok {
                        Ok(())
                    } else {
                        Err("duplicate key".to_string())
                    }),
                    SubscribeAction::Commit => SubscribeEvent::Committed(ok),
                    SubscribeAction::SendEmail(_) => SubscribeEvent::EmailSent(ok),
                };
                step = subscribe_step(state, event);
            }
        }
    }
}

#[test]
fn subscribe_returns_a_500_when_a_step_fails_and_stops_there() {
    for fail_at in [0usize, 1, 3, 4] {
        let (step, actions) = run_failing_at(fail_at);
        assert_eq!(status(&step), Some(500));
        assert_eq!(actions, fail_at + 1);
    }
}

#[test]
fn a_failed_token_store_is_reported_as_its_own_error() {
    let (step, actions) = run_failing_at(2);
    assert_eq!(actions, 3);
    match step {
        SubscribeStep::Finish(Err(StoreTokenError { cause })) => assert_eq!(cause, "duplicate key"),
        _ => panic!("expected the token storage error"),
    }
    let e = StoreTokenError { cause: String::new() };
    assert_eq!(
        e.message(),
        "A database error was encountered while trying to store a subscription token."
    );
}

#[test]
fn the_state_holds_the_subscriber_while_inserting() {
    let step = subscribe_start(valid_form(), "http://x".to_string());
    match step {
        SubscribeStep::Continue(state, SubscribeAction::BeginTransaction) => {
            match subscribe_step(state, SubscribeEvent::TransactionBegun(true)) {
                SubscribeStep::Continue(SubscribeState::InsertingSubscriber { subscriber, base_url }, _) => {
                    assert_eq!(subscriber.name.as_ref(), "le guin");
                    assert_eq!(base_url, "http://x");
                }
                _ => panic!("expected the insert"),
            }
        }
        _ => panic!("expected a transaction"),
    }
}

#[test]
fn status_codes() {
    assert_eq!(HttpStatus::Success.code(), 200);
    assert_eq!(HttpStatus::SeeOther.code(), 303);
    assert_eq!(HttpStatus::BadRequest.code(), 400);
    assert_eq!(HttpStatus::Unauthorized.code(), 401);
    assert_eq!(HttpStatus::InternalServerError.code(), 500);
    let _ = SubscriberEmail::parse("a@b.c".to_string());
}

#[test]
fn the_email_is_asked_for_only_after_a_successful_commit() {
    for fail_at in [0usize, 1, 2, 3, 4, 5] {
        let mut step = subscribe_start(valid_form(), "http://localhost".to_string());
        let mut n = 0;
        let mut committed = false;
        let mut emails = 0;
        while let SubscribeStep::Continue(state, action) = step {
            let ok = n != fail_at;
            n += 1;
            let event = match action {
                SubscribeAction::BeginTransaction => SubscribeEvent::TransactionBegun(ok),
                SubscribeAction::InsertSubscriber { .. } => {
                    SubscribeEvent::SubscriberInserted(if ok { Some(3) } else { None })
                }
                SubscribeAction::StoreToken { .. } => SubscribeEvent::TokenStored(if ok {
                    Ok(())
                } else {
                    Err("e".to_string())
                }),
                SubscribeAction::Commit => {
                    committed = ok;
                    SubscribeEvent::Committed(ok)
                }
                SubscribeAction::SendEmail(_) => {
                    assert!(committed);
                    emails += 1;
                    SubscribeEvent::EmailSent(ok)
                }
            };
            step = subscribe_step(state, event);
        }
        assert!(emails <= 1);
        assert_eq!(emails == 1, fail_at >= 4);
    }
}
