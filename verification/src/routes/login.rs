//! Logging in: the login page, and the decisions of the login handler.
use crate::http::HttpStatus;
use crate::text::{contains_text, lemma_contains_text_in_context};
use vstd::prelude::*;

verus! {

// ----- the login page -----

/// The HTML that shows the flash messages `messages`, one paragraph each.
pub open spec fn flash_messages_html(messages: Seq<Seq<char>>) -> Seq<char>
    decreases messages.len(),
{
    if messages.len() == 0 {
        Seq::empty()
    } else {
        flash_messages_html(messages.drop_last()) + "<p><i>"@ + messages.last() + "</i></p>\n"@
    }
}

/// The login page before the flash messages.
pub open spec fn login_page_head() -> Seq<char> {
    "<!DOCTYPE html>\n<html lang=\"en\">\n<head>\n    <meta http-equiv=\"content-type\" content=\"text/html; charset=utf-8\">\n    <title>Login</title>\n</head>\n<body>\n    "@
}

/// The login page after the flash messages: the login form.
pub open spec fn login_page_tail() -> Seq<char> {
    "\n    <form action=\"/login\" method=\"post\">\n        <label>Username\n            <input\n                type=\"text\"\n                placeholder=\"Enter Username\"\n                name=\"username\"\n            >\n        </label>\n        <label>Password\n            <input\n                type=\"password\"\n                placeholder=\"Enter Password\"\n                name=\"password\"\n            >\n        </label>\n        <button type=\"submit\">Login</button>\n    </form>\n</body>\n</html>"@
}

fn login_page_head_text() -> (t: &'static str)
    ensures
        t@ == login_page_head(),
{
    "<!DOCTYPE html>\n<html lang=\"en\">\n<head>\n    <meta http-equiv=\"content-type\" content=\"text/html; charset=utf-8\">\n    <title>Login</title>\n</head>\n<body>\n    "
}

fn login_page_tail_text() -> (t: &'static str)
    ensures
        t@ == login_page_tail(),
{
    "\n    <form action=\"/login\" method=\"post\">\n        <label>Username\n            <input\n                type=\"text\"\n                placeholder=\"Enter Username\"\n                name=\"username\"\n            >\n        </label>\n        <label>Password\n            <input\n                type=\"password\"\n                placeholder=\"Enter Password\"\n                name=\"password\"\n            >\n        </label>\n        <button type=\"submit\">Login</button>\n    </form>\n</body>\n</html>"
}

/// The login page showing `error_html`.
pub open spec fn login_page(error_html: Seq<char>) -> Seq<char> {
    login_page_head() + error_html + login_page_tail()
}

/// The views of a list of strings.
pub open spec fn string_views(v: Seq<String>) -> Seq<Seq<char>> {
    v.map_values(|m: String| m@)
}

/// The login page, showing each flash message in a paragraph of its own.
pub fn login_form_page(messages: &Vec<String>) -> (page: String)
    ensures
        page@ == login_page(flash_messages_html(string_views(messages@))),
{
    let mut error_html = String::new();
    let mut i: usize = 0;
    while i < messages.len()
        invariant
            i <= messages@.len(),
            error_html@ == flash_messages_html(string_views(messages@.take(i as int))),
        decreases messages@.len() - i,
    {
        proof {
            assert(string_views(messages@.take(i + 1)).drop_last() =~= string_views(
                messages@.take(i as int),
            ));
        }
        error_html.append("<p><i>");
        error_html.append(messages[i].as_str());
        error_html.append("</i></p>\n");
        i = i + 1;
    }
    proof {
        assert(messages@.take(messages@.len() as int) =~= messages@);
    }
    login_page_head_text().to_owned().concat(error_html.as_str()).concat(login_page_tail_text())
}

/// Whatever flash messages it shows, the login page holds a form that posts
/// to `/login`, with an input named `username` and one named `password`: the
/// fields that the login handler reads.
pub proof fn lemma_login_page_posts_the_credentials(messages: Seq<Seq<char>>)
    ensures
        contains_text(
            login_page(flash_messages_html(messages)),
            "<form action=\"/login\" method=\"post\">"@,
        ),
        contains_text(login_page(flash_messages_html(messages)), "name=\"username\""@),
        contains_text(login_page(flash_messages_html(messages)), "name=\"password\""@),
{
    let tail = login_page_tail();
    reveal_strlit("\n    <form action=\"/login\" method=\"post\">\n        <label>Username\n            <input\n                type=\"text\"\n                placeholder=\"Enter Username\"\n                name=\"username\"\n            >\n        </label>\n        <label>Password\n            <input\n                type=\"password\"\n                placeholder=\"Enter Password\"\n                name=\"password\"\n            >\n        </label>\n        <button type=\"submit\">Login</button>\n    </form>\n</body>\n</html>");
    reveal_strlit("<form action=\"/login\" method=\"post\">");
    reveal_strlit("name=\"username\"");
    reveal_strlit("name=\"password\"");
    assert(tail.subrange(5, 41) =~= "<form action=\"/login\" method=\"post\">"@);
    assert(tail.subrange(5, 5int + "<form action=\"/login\" method=\"post\">"@.len()) == "<form action=\"/login\" method=\"post\">"@);
    assert(tail.subrange(174, 189) =~= "name=\"username\""@);
    assert(tail.subrange(174, 174int + "name=\"username\""@.len()) == "name=\"username\""@);
    assert(tail.subrange(357, 372) =~= "name=\"password\""@);
    assert(tail.subrange(357, 357int + "name=\"password\""@.len()) == "name=\"password\""@);
    let before = login_page_head() + flash_messages_html(messages);
    assert(login_page(flash_messages_html(messages)) == before + tail + Seq::<char>::empty());
    lemma_contains_text_in_context(before, tail, Seq::empty(), "<form action=\"/login\" method=\"post\">"@);
    lemma_contains_text_in_context(before, tail, Seq::empty(), "name=\"username\""@);
    lemma_contains_text_in_context(before, tail, Seq::empty(), "name=\"password\""@);
}

// ----- the login handler -----

/// Why the credentials were not accepted; each variant carries the
/// description of the underlying cause.
#[derive(Debug)]
pub enum AuthError {
    InvalidCredentials(String),
    UnexpectedError(String),
}

/// Why a login failed; each variant carries the description of its source.
#[derive(Debug)]
pub enum LoginError {
    AuthError(String),
    UnexpectedError(String),
}

/// The text shown for a login error.
pub open spec fn login_error_message(e: LoginError) -> Seq<char> {
    match e {
        LoginError::AuthError(_) => "Authentication failed"@,
        LoginError::UnexpectedError(_) => "Something went wrong"@,
    }
}

/// The login error reported for an authentication error: invalid
/// credentials fail the authentication, anything else is unexpected.
pub open spec fn login_error_for(e: AuthError) -> LoginError {
    match e {
        AuthError::InvalidCredentials(cause) => LoginError::AuthError(cause),
        AuthError::UnexpectedError(cause) => LoginError::UnexpectedError(cause),
    }
}

impl LoginError {
    /// The text shown for this error.
    pub fn message(&self) -> (m: String)
        ensures
            m@ == login_error_message(*self),
    {
        match self {
            LoginError::AuthError(_) => "Authentication failed".to_owned(),
            LoginError::UnexpectedError(_) => "Something went wrong".to_owned(),
        }
    }

    /// The login error reported for an authentication error.
    pub fn from_auth_error(e: AuthError) -> (r: LoginError)
        ensures
            r == login_error_for(e),
    {
        match e {
            AuthError::InvalidCredentials(cause) => LoginError::AuthError(cause),
            AuthError::UnexpectedError(cause) => LoginError::UnexpectedError(cause),
        }
    }
}

/// The login handler's answer: a 303 See Other redirect to `location`,
/// after the error flash messages `flash_messages` were sent in order;
/// `outcome` is the error that a failed login carries.
pub struct LoginReply {
    pub outcome: Result<(), LoginError>,
    pub location: String,
    pub flash_messages: Vec<String>,
}

impl LoginReply {
    /// The status of the answer: always 303 See Other.
    pub fn status(&self) -> (s: HttpStatus)
        ensures
            s == HttpStatus::SeeOther,
    {
        HttpStatus::SeeOther
    }
}

/// Where a successful login leads.
pub open spec fn dashboard_location() -> Seq<char> {
    "/admin/dashboard"@
}

/// Where a failed login leads back to.
pub open spec fn login_location() -> Seq<char> {
    "/login"@
}

/// `r` sends the login error `e` back to the login page, after flashing its
/// message `flashes` times.
pub open spec fn is_rejection(r: LoginReply, e: LoginError, flashes: nat) -> bool {
    &&& r.outcome == Err::<(), LoginError>(e)
    &&& r.location@ == login_location()
    &&& r.flash_messages@.len() == flashes
    &&& forall|i: int|
        0 <= i < flashes ==> #[trigger] r.flash_messages@[i]@ == login_error_message(e)
}

/// Redirects to the login page with `e` as an error flash message.
pub fn login_redirect(e: LoginError) -> (r: LoginReply)
    ensures
        is_rejection(r, e, 1),
{
    let mut flash_messages: Vec<String> = Vec::new();
    flash_messages.push(e.message());
    LoginReply { outcome: Err(e), location: "/login".to_owned(), flash_messages }
}

/// Where a login stands once the credentials were accepted.
pub enum LoginState {
    /// The session is being renewed for this user.
    RenewingSession { user_id: u128 },
    /// The user id is being stored in the renewed session.
    StoringUserId,
}

/// What the login handler asks its caller to do next.
pub enum LoginAction {
    /// Renew the session, so that its key differs from the one before.
    RenewSession,
    /// Store this user id in the session.
    InsertUserId(u128),
}

/// What the caller reports back after an action.
pub enum LoginEvent {
    /// The session was renewed.
    SessionRenewed,
    /// Whether the user id was stored; on failure, what went wrong.
    UserIdStored(Result<(), String>),
}

/// The login handler either continues with an action, or answers.
pub enum LoginStep {
    Continue(LoginState, LoginAction),
    Finish(LoginReply),
}

/// What the handler does on the result of checking the credentials.
pub open spec fn login_validation_step(validated: Result<u128, AuthError>, step: LoginStep) -> bool {
    match validated {
        Ok(user_id) => step == LoginStep::Continue(
            LoginState::RenewingSession { user_id },
            LoginAction::RenewSession,
        ),
        Err(e) => step matches LoginStep::Finish(r) && is_rejection(r, login_error_for(e), 2),
    }
}

/// How the handler answers once it tried to store the user id.
pub open spec fn login_session_reply(stored: Result<(), String>, r: LoginReply) -> bool {
    match stored {
        Ok(_) => {
            &&& r.outcome is Ok
            &&& r.location@ == dashboard_location()
            &&& r.flash_messages@.len() == 0
        },
        Err(cause) => is_rejection(r, LoginError::UnexpectedError(cause), 1),
    }
}

/// The event that answers the action taken in `state`.
pub open spec fn login_expects(state: LoginState, event: LoginEvent) -> bool {
    match state {
        LoginState::RenewingSession { .. } => event is SessionRenewed,
        LoginState::StoringUserId => event is UserIdStored,
    }
}

/// One step of the handler: from `state`, on `event`, to `step`.
pub open spec fn login_transition(state: LoginState, event: LoginEvent, step: LoginStep) -> bool {
    match state {
        LoginState::RenewingSession { user_id } => step == LoginStep::Continue(
            LoginState::StoringUserId,
            LoginAction::InsertUserId(user_id),
        ),
        LoginState::StoringUserId => match event {
            LoginEvent::UserIdStored(stored) => step matches LoginStep::Finish(r)
                && login_session_reply(stored, r),
            LoginEvent::SessionRenewed => false,
        },
    }
}

/// The login handler on the result of checking the credentials: a known user
/// first gets a renewed session; otherwise the error is flashed, and flashed
/// again by the redirect to the login page.
pub fn login_after_validation(validated: Result<u128, AuthError>) -> (step: LoginStep)
    ensures
        login_validation_step(validated, step),
{
    match validated {
        Ok(user_id) => LoginStep::Continue(
            LoginState::RenewingSession { user_id },
            LoginAction::RenewSession,
        ),
        Err(e) => {
            let e = LoginError::from_auth_error(e);
            let first = e.message();
            let mut r = login_redirect(e);
            r.flash_messages.insert(0, first);
            LoginStep::Finish(r)
        },
    }
}

/// The login handler once the user id was stored in the session (or not,
/// with the description of what failed): on to the dashboard, or back to the
/// login page with an unexpected error.
pub fn login_after_session_update(stored: Result<(), String>) -> (r: LoginReply)
    ensures
        login_session_reply(stored, r),
{
    match stored {
        Ok(()) => LoginReply {
            outcome: Ok(()),
            location: "/admin/dashboard".to_owned(),
            flash_messages: Vec::new(),
        },
        Err(cause) => login_redirect(LoginError::UnexpectedError(cause)),
    }
}

/// One step of the handler, on the event that answers the last action: a
/// renewed session is followed by storing the user id in it.
pub fn login_step(state: LoginState, event: LoginEvent) -> (step: LoginStep)
    requires
        login_expects(state, event),
    ensures
        login_transition(state, event, step),
{
    match state {
        LoginState::RenewingSession { user_id } => LoginStep::Continue(
            LoginState::StoringUserId,
            LoginAction::InsertUserId(user_id),
        ),
        LoginState::StoringUserId => match event {
            LoginEvent::UserIdStored(stored) => LoginStep::Finish(
                login_after_session_update(stored),
            ),
            LoginEvent::SessionRenewed => LoginStep::Finish(
                login_after_session_update(Ok(())),
            ),
        },
    }
}

/// `steps` are the steps taken from `state` on `events`, one per event, each
/// from the state that the step before continued in; a finished step is last.
pub open spec fn login_run(state: LoginState, events: Seq<LoginEvent>, steps: Seq<LoginStep>) -> bool
    decreases events.len(),
{
    &&& events.len() == steps.len()
    &&& events.len() > 0 ==> {
        &&& login_expects(state, events[0])
        &&& login_transition(state, events[0], steps[0])
        &&& match steps[0] {
            LoginStep::Continue(next, _) => login_run(
                next,
                events.drop_first(),
                steps.drop_first(),
            ),
            LoginStep::Finish(_) => events.len() == 1,
        }
    }
}

/// A login whose handler started with `first` on the result `validated` of
/// checking the credentials, went on with `steps` on `events`, and answered
/// with `reply`.
pub open spec fn login_handled(
    validated: Result<u128, AuthError>,
    first: LoginStep,
    events: Seq<LoginEvent>,
    steps: Seq<LoginStep>,
    reply: LoginReply,
) -> bool {
    &&& login_validation_step(validated, first)
    &&& match first {
        LoginStep::Continue(state, _) => {
            &&& login_run(state, events, steps)
            &&& steps.len() > 0
            &&& steps.last() == LoginStep::Finish(reply)
        },
        LoginStep::Finish(r) => reply == r && events.len() == 0,
    }
}

/// A login leads to the dashboard exactly when the credentials belonged to a
/// user and that user's id was stored in the session; before the id is
/// stored, the session is renewed. Every other login is sent back to the
/// login page carrying a login error, with that error's message flashed:
/// twice when the credentials were refused, once when the session could not
/// be updated.
pub proof fn lemma_dashboard_only_for_stored_valid_logins(
    validated: Result<u128, AuthError>,
    first: LoginStep,
    events: Seq<LoginEvent>,
    steps: Seq<LoginStep>,
    reply: LoginReply,
)
    requires
        login_handled(validated, first, events, steps, reply),
    ensures
        reply.location@ == dashboard_location() <==> validated is Ok && events.len() == 2
            && events[1] matches LoginEvent::UserIdStored(Ok(_)),
        reply.outcome is Ok <==> validated is Ok && events.len() == 2
            && events[1] matches LoginEvent::UserIdStored(Ok(_)),
        validated matches Ok(user_id) ==> {
            &&& first == LoginStep::Continue(
                LoginState::RenewingSession { user_id },
                LoginAction::RenewSession,
            )
            &&& events.len() == 2
            &&& events[0] == LoginEvent::SessionRenewed
            &&& steps[0] == LoginStep::Continue(
                LoginState::StoringUserId,
                LoginAction::InsertUserId(user_id),
            )
        },
        reply.outcome matches Err(e) ==> {
            &&& reply.location@ == login_location()
            &&& reply.flash_messages@.len() > 0
            &&& forall|i: int|
                0 <= i < reply.flash_messages@.len() ==> #[trigger] reply.flash_messages@[i]@
                    == login_error_message(e)
        },
{
    reveal_with_fuel(login_run, 3);
    assert(login_location() != dashboard_location()) by {
        reveal_strlit("/login");
        reveal_strlit("/admin/dashboard");
        assert(login_location().len() != dashboard_location().len());
    }
}

/// Refused credentials and server trouble are told apart: the two login
/// errors show different messages.
pub proof fn lemma_login_error_messages_differ(cause: String, other: String)
    ensures
        login_error_message(LoginError::AuthError(cause)) != login_error_message(
            LoginError::UnexpectedError(other),
        ),
{
    reveal_strlit("Authentication failed");
    reveal_strlit("Something went wrong");
    assert(login_error_message(LoginError::AuthError(cause))[0] != login_error_message(
        LoginError::UnexpectedError(other),
    )[0]);
}

} // verus!
