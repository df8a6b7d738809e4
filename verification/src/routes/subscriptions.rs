//! Subscribing: checking the form, the subscription token, the confirmation
//! e-mail, and the order of the steps of the handler.
use crate::domain::new_subscriber::NewSubscriber;
use crate::domain::subscriber_email::{invalid_email_message, is_valid_email, SubscriberEmail};
use crate::domain::subscriber_name::{
    invalid_name_message,
    is_valid_subscriber_name,
    SubscriberName,
};
use crate::http::HttpStatus;
use crate::text::{contains_text, is_ascii_alphanumeric, push_char};
use vstd::prelude::*;

verus! {

/// The subscription form as submitted.
pub struct FormData {
    pub email: String,
    pub name: String,
}

impl NewSubscriber {
    /// Validates the form: the name first, then the e-mail address. The error
    /// is that of the first part refused.
    pub fn try_from(value: FormData) -> (r: Result<NewSubscriber, String>)
        ensures
            r is Ok <==> is_valid_subscriber_name(value.name@) && is_valid_email(value.email@),
            r matches Ok(s) ==> s.name@ == value.name@ && s.email@ == value.email@,
            r matches Err(m) ==> m@ == (if !is_valid_subscriber_name(value.name@) {
                invalid_name_message(value.name@)
            } else {
                invalid_email_message(value.email@)
            }),
    {
        let name = match SubscriberName::parse(value.name) {
            Ok(name) => name,
            Err(e) => return Err(e),
        };
        let email = match SubscriberEmail::parse(value.email) {
            Ok(email) => email,
            Err(e) => return Err(e),
        };
        Ok(NewSubscriber { email, name })
    }
}

// ----- subscription tokens -----

/// The number of characters of a subscription token.
pub const SUBSCRIPTION_TOKEN_LENGTH: usize = 25;

/// A subscription token: `SUBSCRIPTION_TOKEN_LENGTH` ASCII letters and digits.
pub open spec fn is_subscription_token(t: Seq<char>) -> bool {
    &&& t.len() == SUBSCRIPTION_TOKEN_LENGTH
    &&& forall|i: int| 0 <= i < t.len() ==> is_ascii_alphanumeric(#[trigger] t[i])
}

#[verifier::external_type_specification]
#[verifier::external_body]
pub struct ExThreadRng(rand::rngs::ThreadRng);

/// `rand::thread_rng` of `rand`: the thread's random number generator.
/// Nothing is claimed of it.
#[verifier::external_body]
fn thread_rng() -> rand::rngs::ThreadRng {
    rand::thread_rng()
}

/// `Rng::sample(rng, Alphanumeric)` of `rand`.
/// Claimed, as `Alphanumeric`'s documentation says: the byte is an ASCII
/// letter or digit. Which one is left to chance.
#[verifier::external_body]
fn sample_alphanumeric(rng: &mut rand::rngs::ThreadRng) -> (b: u8)
    ensures
        is_ascii_alphanumeric(b as char),
{
    rand::Rng::sample(rng, rand::distributions::Alphanumeric)
}

/// The characters of the bytes `samples`, one character per byte.
pub open spec fn chars_of(samples: Seq<u8>) -> Seq<char> {
    samples.map_values(|b: u8| b as char)
}

/// The subscription token made of the drawn letters and digits `samples`,
/// in the order they were drawn.
pub fn subscription_token_from(samples: &Vec<u8>) -> (t: String)
    requires
        samples@.len() == SUBSCRIPTION_TOKEN_LENGTH,
        forall|i: int| 0 <= i < samples@.len() ==> is_ascii_alphanumeric(#[trigger] samples@[i] as char),
    ensures
        t@ == chars_of(samples@),
        is_subscription_token(t@),
{
    let mut token = String::new();
    let mut i: usize = 0;
    while i < samples.len()
        invariant
            i <= samples@.len(),
            token@ == chars_of(samples@.take(i as int)),
        decreases samples@.len() - i,
    {
        proof {
            assert(chars_of(samples@.take(i + 1)) =~= chars_of(samples@.take(i as int)).push(
                samples@[i as int] as char,
            ));
        }
        push_char(&mut token, samples[i] as char);
        i = i + 1;
    }
    proof {
        assert(samples@.take(samples@.len() as int) =~= samples@);
    }
    token
}

/// A fresh random subscription token: `SUBSCRIPTION_TOKEN_LENGTH` letters
/// and digits drawn from the thread's random number generator, in the order
/// drawn.
pub fn generate_subscription_token() -> (t: String)
    ensures
        is_subscription_token(t@),
{
    let mut rng = thread_rng();
    let mut samples: Vec<u8> = Vec::new();
    while samples.len() < SUBSCRIPTION_TOKEN_LENGTH
        invariant
            samples@.len() <= SUBSCRIPTION_TOKEN_LENGTH,
            forall|j: int| 0 <= j < samples@.len() ==> is_ascii_alphanumeric(#[trigger] samples@[j] as char),
        decreases SUBSCRIPTION_TOKEN_LENGTH - samples@.len(),
    {
        samples.push(sample_alphanumeric(&mut rng));
    }
    subscription_token_from(&samples)
}

// ----- the confirmation e-mail -----

/// The link that confirms the subscription holding `token`.
pub open spec fn confirmation_link(base_url: Seq<char>, token: Seq<char>) -> Seq<char> {
    base_url + "/subscriptions/confirm?subscription_token="@ + token
}

/// The plain-text body of the confirmation e-mail.
pub open spec fn confirmation_plain_body(link: Seq<char>) -> Seq<char> {
    "Welcome to our newsletter!\nVisit "@ + link + " to confirm your subscription."@
}

/// The HTML body of the confirmation e-mail.
pub open spec fn confirmation_html_body(link: Seq<char>) -> Seq<char> {
    "Welcome to our newsletter!<br />Click <a href=\""@ + link
        + "\">here</a> to confirm your subscription."@
}

/// A confirmation e-mail, ready to be sent.
pub struct ConfirmationEmail {
    pub recipient: SubscriberEmail,
    pub subject: String,
    pub html_body: String,
    pub plain_body: String,
}

/// `email` is the confirmation e-mail for `recipient`, whose link is built
/// from `base_url` and `token`.
pub open spec fn is_confirmation_email(
    email: ConfirmationEmail,
    recipient: SubscriberEmail,
    base_url: Seq<char>,
    token: Seq<char>,
) -> bool {
    &&& email.recipient == recipient
    &&& email.subject@ == "Welcome!"@
    &&& email.html_body@ == confirmation_html_body(confirmation_link(base_url, token))
    &&& email.plain_body@ == confirmation_plain_body(confirmation_link(base_url, token))
}

/// Both bodies of a confirmation e-mail carry the same, whole confirmation
/// link, `base_url` + `/subscriptions/confirm?subscription_token=` + the
/// entire token: in the HTML body as the `href` of the link, closed by a
/// quote; in the plain body after `Visit `, followed by a space. The e-mail
/// goes to the subscriber.
pub proof fn lemma_confirmation_email_carries_the_whole_link(
    e: ConfirmationEmail,
    recipient: SubscriberEmail,
    base_url: Seq<char>,
    token: Seq<char>,
)
    requires
        is_confirmation_email(e, recipient, base_url, token),
    ensures
        e.recipient == recipient,
        contains_text(
            e.html_body@,
            "href=\""@ + base_url + "/subscriptions/confirm?subscription_token="@ + token + "\""@,
        ),
        contains_text(
            e.plain_body@,
            "Visit "@ + base_url + "/subscriptions/confirm?subscription_token="@ + token + " "@,
        ),
{
    let link = base_url + "/subscriptions/confirm?subscription_token="@ + token;
    reveal_strlit("Welcome to our newsletter!<br />Click <a href=\"");
    reveal_strlit("\">here</a> to confirm your subscription.");
    reveal_strlit("Welcome to our newsletter!\nVisit ");
    reveal_strlit(" to confirm your subscription.");
    reveal_strlit("href=\"");
    reveal_strlit("\"");
    reveal_strlit("Visit ");
    reveal_strlit(" ");
    let html_piece = "href=\""@ + base_url + "/subscriptions/confirm?subscription_token="@ + token
        + "\""@;
    assert(e.html_body@ == "Welcome to our newsletter!<br />Click <a href=\""@ + link
        + "\">here</a> to confirm your subscription."@);
    let at: int = 41;
    assert(e.html_body@.subrange(at, at + html_piece.len()) =~= html_piece);
    let plain_piece = "Visit "@ + base_url + "/subscriptions/confirm?subscription_token="@ + token
        + " "@;
    assert(e.plain_body@ == "Welcome to our newsletter!\nVisit "@ + link
        + " to confirm your subscription."@);
    let at: int = 27;
    assert(e.plain_body@.subrange(at, at + plain_piece.len()) =~= plain_piece);
}

/// The e-mail that asks `new_subscriber` to confirm with `subscription_token`.
pub fn confirmation_email(
    new_subscriber: NewSubscriber,
    base_url: &str,
    subscription_token: &str,
) -> (e: ConfirmationEmail)
    ensures
        is_confirmation_email(e, new_subscriber.email, base_url@, subscription_token@),
{
    let confirmation_link = base_url.to_owned().concat(
        "/subscriptions/confirm?subscription_token=",
    ).concat(subscription_token);
    let plain_body = "Welcome to our newsletter!\nVisit ".to_owned().concat(
        confirmation_link.as_str(),
    ).concat(" to confirm your subscription.");
    let html_body = "Welcome to our newsletter!<br />Click <a href=\"".to_owned().concat(
        confirmation_link.as_str(),
    ).concat("\">here</a> to confirm your subscription.");
    ConfirmationEmail {
        recipient: new_subscriber.email,
        subject: "Welcome!".to_owned(),
        html_body,
        plain_body,
    }
}

// ----- the subscribe handler -----

/// Storing the subscription token failed; the handler answers with this
/// error (an internal server error whose body is `message`).
pub struct StoreTokenError {
    /// What the database reported.
    pub cause: String,
}

impl StoreTokenError {
    /// The text shown for this error.
    pub fn message(&self) -> (m: String)
        ensures
            m@ == "A database error was encountered while trying to store a subscription token."@,
    {
        "A database error was encountered while trying to store a subscription token.".to_owned()
    }
}

/// What the handler ends with: a status, or the token storage error.
pub type SubscribeReply = Result<HttpStatus, StoreTokenError>;

/// Where a subscription stands, between two steps that talk to the outside.
pub enum SubscribeState {
    /// A database transaction is being opened.
    BeginningTransaction { subscriber: NewSubscriber, base_url: String },
    /// The subscriber is being inserted as pending confirmation.
    InsertingSubscriber { subscriber: NewSubscriber, base_url: String },
    /// `token` is being stored for the inserted subscriber.
    StoringToken { subscriber: NewSubscriber, base_url: String, token: String },
    /// The transaction is being committed.
    Committing { subscriber: NewSubscriber, base_url: String, token: String },
    /// The confirmation e-mail is being sent.
    SendingEmail,
}

/// What the handler asks its caller to do next.
pub enum SubscribeAction {
    /// Open a database transaction.
    BeginTransaction,
    /// Insert a subscriber with this address and name, pending confirmation,
    /// and report its new id.
    InsertSubscriber { email: String, name: String },
    /// Store `token` for the subscriber `subscriber_id`.
    StoreToken { subscriber_id: u128, token: String },
    /// Commit the transaction.
    Commit,
    /// Send this e-mail.
    SendEmail(ConfirmationEmail),
}

/// What the caller reports back after an action.
pub enum SubscribeEvent {
    /// Whether the transaction could be opened.
    TransactionBegun(bool),
    /// The new subscriber's id, or `None` when the insert failed.
    SubscriberInserted(Option<u128>),
    /// Whether the token was stored; on failure, what the database said.
    TokenStored(Result<(), String>),
    /// Whether the transaction was committed.
    Committed(bool),
    /// Whether the e-mail was sent.
    EmailSent(bool),
}

/// The handler either continues with an action, or is finished.
pub enum SubscribeStep {
    Continue(SubscribeState, SubscribeAction),
    Finish(SubscribeReply),
}

/// The event that answers the action taken in `state`.
pub open spec fn subscribe_expects(state: SubscribeState, event: SubscribeEvent) -> bool {
    match state {
        SubscribeState::BeginningTransaction { .. } => event is TransactionBegun,
        SubscribeState::InsertingSubscriber { .. } => event is SubscriberInserted,
        SubscribeState::StoringToken { .. } => event is TokenStored,
        SubscribeState::Committing { .. } => event is Committed,
        SubscribeState::SendingEmail => event is EmailSent,
    }
}

/// The answer when a step in the database or the mail service fails.
pub open spec fn internal_error() -> SubscribeStep {
    SubscribeStep::Finish(Ok(HttpStatus::InternalServerError))
}

/// One step of the handler: from `state`, on `event`, to `step`.
pub open spec fn subscribe_transition(
    state: SubscribeState,
    event: SubscribeEvent,
    step: SubscribeStep,
) -> bool {
    match state {
        SubscribeState::BeginningTransaction { subscriber, base_url } => {
            if event == SubscribeEvent::TransactionBegun(true) {
                &&& step matches SubscribeStep::Continue(s, a)
                &&& s == SubscribeState::InsertingSubscriber { subscriber, base_url }
                &&& a matches SubscribeAction::InsertSubscriber { email, name }
                &&& email@ == subscriber.email@
                &&& name@ == subscriber.name@
            } else {
                step == internal_error()
            }
        },
        SubscribeState::InsertingSubscriber { subscriber, base_url } => {
            match event {
                SubscribeEvent::SubscriberInserted(Some(id)) => {
                    &&& step matches SubscribeStep::Continue(
                        SubscribeState::StoringToken { subscriber: s, base_url: b, token },
                        SubscribeAction::StoreToken { subscriber_id, token: t },
                    )
                    &&& s == subscriber
                    &&& b == base_url
                    &&& subscriber_id == id
                    &&& t == token
                    &&& is_subscription_token(token@)
                },
                _ => step == internal_error(),
            }
        },
        SubscribeState::StoringToken { subscriber, base_url, token } => {
            match event {
                SubscribeEvent::TokenStored(Err(cause)) => step == SubscribeStep::Finish(
                    Err(StoreTokenError { cause }),
                ),
                _ => step == SubscribeStep::Continue(
                    SubscribeState::Committing { subscriber, base_url, token },
                    SubscribeAction::Commit,
                ),
            }
        },
        SubscribeState::Committing { subscriber, base_url, token } => {
            if event == SubscribeEvent::Committed(true) {
                &&& step matches SubscribeStep::Continue(
                    SubscribeState::SendingEmail,
                    SubscribeAction::SendEmail(e),
                )
                &&& is_confirmation_email(e, subscriber.email, base_url@, token@)
            } else {
                step == internal_error()
            }
        },
        SubscribeState::SendingEmail => {
            if event == SubscribeEvent::EmailSent(true) {
                step == SubscribeStep::Finish(Ok(HttpStatus::Success))
            } else {
                step == internal_error()
            }
        },
    }
}

/// How the handler starts: a form that does not validate is answered with
/// 400 Bad Request and nothing else is done; otherwise a transaction is
/// opened.
pub fn subscribe_start(form: FormData, base_url: String) -> (step: SubscribeStep)
    ensures
        !(is_valid_subscriber_name(form.name@) && is_valid_email(form.email@)) ==> step
            == SubscribeStep::Finish(Ok(HttpStatus::BadRequest)),
        is_valid_subscriber_name(form.name@) && is_valid_email(form.email@) ==> {
            &&& step matches SubscribeStep::Continue(
                SubscribeState::BeginningTransaction { subscriber, base_url: b },
                SubscribeAction::BeginTransaction,
            )
            &&& subscriber.email@ == form.email@
            &&& subscriber.name@ == form.name@
            &&& b == base_url
        },
{
    match NewSubscriber::try_from(form) {
        Ok(subscriber) => SubscribeStep::Continue(
            SubscribeState::BeginningTransaction { subscriber, base_url },
            SubscribeAction::BeginTransaction,
        ),
        Err(_) => SubscribeStep::Finish(Ok(HttpStatus::BadRequest)),
    }
}

/// One step of the handler, on the event that answers the last action.
pub fn subscribe_step(state: SubscribeState, event: SubscribeEvent) -> (step: SubscribeStep)
    requires
        subscribe_expects(state, event),
    ensures
        subscribe_transition(state, event, step),
{
    match state {
        SubscribeState::BeginningTransaction { subscriber, base_url } => {
            if let SubscribeEvent::TransactionBegun(true) = event {
                let email = subscriber.email.as_ref().to_owned();
                let name = subscriber.name.as_ref().to_owned();
                SubscribeStep::Continue(
                    SubscribeState::InsertingSubscriber { subscriber, base_url },
                    SubscribeAction::InsertSubscriber { email, name },
                )
            } else {
                SubscribeStep::Finish(Ok(HttpStatus::InternalServerError))
            }
        },
        SubscribeState::InsertingSubscriber { subscriber, base_url } => {
            if let SubscribeEvent::SubscriberInserted(Some(id)) = event {
                let token = generate_subscription_token();
                let stored = token.clone();
                SubscribeStep::Continue(
                    SubscribeState::StoringToken { subscriber, base_url, token },
                    SubscribeAction::StoreToken { subscriber_id: id, token: stored },
                )
            } else {
                SubscribeStep::Finish(Ok(HttpStatus::InternalServerError))
            }
        },
        SubscribeState::StoringToken { subscriber, base_url, token } => {
            if let SubscribeEvent::TokenStored(Err(cause)) = event {
                SubscribeStep::Finish(Err(StoreTokenError { cause }))
            } else {
                SubscribeStep::Continue(
                    SubscribeState::Committing { subscriber, base_url, token },
                    SubscribeAction::Commit,
                )
            }
        },
        SubscribeState::Committing { subscriber, base_url, token } => {
            if let SubscribeEvent::Committed(true) = event {
                let e = confirmation_email(subscriber, base_url.as_str(), token.as_str());
                SubscribeStep::Continue(SubscribeState::SendingEmail, SubscribeAction::SendEmail(e))
            } else {
                SubscribeStep::Finish(Ok(HttpStatus::InternalServerError))
            }
        },
        SubscribeState::SendingEmail => {
            if let SubscribeEvent::EmailSent(true) = event {
                SubscribeStep::Finish(Ok(HttpStatus::Success))
            } else {
                SubscribeStep::Finish(Ok(HttpStatus::InternalServerError))
            }
        },
    }
}

// ----- runs of the subscribe handler -----

/// What each report leads to. An insert that reports an id, whatever the id,
/// always goes on to store a fresh token for that same id. A report of
/// success goes on to the next action, except the last, after which the
/// answer is 200 OK; a report of failure ends the handler with 500 or, for
/// the token, with the token storage error carrying what the database said.
pub proof fn lemma_subscribe_step_answers(
    state: SubscribeState,
    event: SubscribeEvent,
    step: SubscribeStep,
)
    requires
        subscribe_expects(state, event),
        subscribe_transition(state, event, step),
    ensures
        event matches SubscribeEvent::SubscriberInserted(Some(id)) ==> {
            &&& step matches SubscribeStep::Continue(
                SubscribeState::StoringToken { token, .. },
                SubscribeAction::StoreToken { subscriber_id, token: stored },
            )
            &&& subscriber_id == id
            &&& stored == token
            &&& is_subscription_token(token@)
        },
        !reports_failure(event) && !(state is SendingEmail) ==> step is Continue,
        step == SubscribeStep::Finish(Ok(HttpStatus::Success)) <==> event
            == SubscribeEvent::EmailSent(true),
        reports_failure(event) ==> step is Finish && step != SubscribeStep::Finish(
            Ok(HttpStatus::Success),
        ),
        event matches SubscribeEvent::TokenStored(Err(cause)) ==> step == SubscribeStep::Finish(
            Err(StoreTokenError { cause }),
        ),
        step matches SubscribeStep::Finish(Ok(status)) ==> status == HttpStatus::Success
            || status == HttpStatus::InternalServerError,
{
}

/// A subscription in which every action reports success is answered with
/// 200 OK after its five actions, whatever ids and tokens it met on the way.
pub proof fn lemma_every_success_is_answered_ok(
    subscriber: NewSubscriber,
    base_url: String,
    events: Seq<SubscribeEvent>,
    steps: Seq<SubscribeStep>,
)
    requires
        subscribe_run(
            SubscribeState::BeginningTransaction { subscriber, base_url },
            events,
            steps,
        ),
        steps.len() > 0,
        steps.last() is Finish,
        forall|i: int| 0 <= i < events.len() ==> !reports_failure(#[trigger] events[i]),
    ensures
        events.len() == 5,
        steps.last() == SubscribeStep::Finish(Ok(HttpStatus::Success)),
{
    reveal_with_fuel(subscribe_run, 6);
    lemma_run_is_short(SubscribeState::BeginningTransaction { subscriber, base_url }, events, steps);
    assert(!reports_failure(events[0]));
    if events.len() > 1 { assert(!reports_failure(events[1])); }
    if events.len() > 2 { assert(!reports_failure(events[2])); }
    if events.len() > 3 { assert(!reports_failure(events[3])); }
    if events.len() > 4 { assert(!reports_failure(events[4])); }
}



/// `steps` are the steps taken from `state` on `events`, one per event, each
/// from the state that the step before continued in; a finished step is last.
pub open spec fn subscribe_run(
    state: SubscribeState,
    events: Seq<SubscribeEvent>,
    steps: Seq<SubscribeStep>,
) -> bool
    decreases events.len(),
{
    &&& events.len() == steps.len()
    &&& events.len() > 0 ==> {
        &&& subscribe_expects(state, events[0])
        &&& subscribe_transition(state, events[0], steps[0])
        &&& match steps[0] {
            SubscribeStep::Continue(next, _) => subscribe_run(
                next,
                events.drop_first(),
                steps.drop_first(),
            ),
            SubscribeStep::Finish(_) => events.len() == 1,
        }
    }
}

/// An event that reports a failure of the action it answers.
pub open spec fn reports_failure(event: SubscribeEvent) -> bool {
    match event {
        SubscribeEvent::TransactionBegun(ok) => !ok,
        SubscribeEvent::SubscriberInserted(id) => id is None,
        SubscribeEvent::TokenStored(r) => r is Err,
        SubscribeEvent::Committed(ok) => !ok,
        SubscribeEvent::EmailSent(ok) => !ok,
    }
}

/// A subscription is answered with 200 OK only when every action succeeded,
/// in this order: the transaction was opened, the subscriber inserted, a
/// token stored for it, the transaction committed, and the confirmation
/// e-mail sent; and the link in that e-mail carries the token that was
/// stored, for the id the insert reported.
pub proof fn lemma_subscribed_only_when_all_steps_succeed(
    subscriber: NewSubscriber,
    base_url: String,
    events: Seq<SubscribeEvent>,
    steps: Seq<SubscribeStep>,
)
    requires
        subscribe_run(
            SubscribeState::BeginningTransaction { subscriber, base_url },
            events,
            steps,
        ),
        steps.len() > 0,
        steps.last() == SubscribeStep::Finish(Ok(HttpStatus::Success)),
    ensures
        events.len() == 5,
        events[0] == SubscribeEvent::TransactionBegun(true),
        events[1] matches SubscribeEvent::SubscriberInserted(Some(_)),
        events[2] matches SubscribeEvent::TokenStored(Ok(_)),
        events[3] == SubscribeEvent::Committed(true),
        events[4] == SubscribeEvent::EmailSent(true),
        ({
            &&& steps[1] matches SubscribeStep::Continue(
                _,
                SubscribeAction::StoreToken { subscriber_id, token },
            )
            &&& events[1] == SubscribeEvent::SubscriberInserted(Some(subscriber_id))
            &&& is_subscription_token(token@)
            &&& steps[3] matches SubscribeStep::Continue(_, SubscribeAction::SendEmail(e))
            &&& is_confirmation_email(e, subscriber.email, base_url@, token@)
        }),
{
    reveal_with_fuel(subscribe_run, 6);
}

/// In every run, whatever it ends with, the confirmation e-mail is asked for
/// at most once: only as the fourth action, right after the commit was
/// reported successful, which itself follows the successful storing of the
/// token for the id the insert reported; the e-mail goes to the subscriber
/// and its link carries that stored token.
pub proof fn lemma_email_only_after_commit(
    subscriber: NewSubscriber,
    base_url: String,
    events: Seq<SubscribeEvent>,
    steps: Seq<SubscribeStep>,
    i: int,
)
    requires
        subscribe_run(
            SubscribeState::BeginningTransaction { subscriber, base_url },
            events,
            steps,
        ),
        0 <= i < steps.len(),
        steps[i] matches SubscribeStep::Continue(_, SubscribeAction::SendEmail(_)),
    ensures
        i == 3,
        events[0] == SubscribeEvent::TransactionBegun(true),
        events[2] matches SubscribeEvent::TokenStored(Ok(_)),
        events[3] == SubscribeEvent::Committed(true),
        ({
            &&& steps[1] matches SubscribeStep::Continue(
                _,
                SubscribeAction::StoreToken { subscriber_id, token },
            )
            &&& events[1] == SubscribeEvent::SubscriberInserted(Some(subscriber_id))
            &&& is_subscription_token(token@)
            &&& steps[3] matches SubscribeStep::Continue(_, SubscribeAction::SendEmail(e))
            &&& is_confirmation_email(e, subscriber.email, base_url@, token@)
        }),
{
    reveal_with_fuel(subscribe_run, 6);
    lemma_run_is_short(
        SubscribeState::BeginningTransaction { subscriber, base_url },
        events,
        steps,
    );
}

/// A failure reported at any step ends the handler at that step, so no later
/// action is asked for; the answer is 500 Internal Server Error, or the token
/// storage error when storing the token failed.
pub proof fn lemma_failure_ends_the_run(
    state: SubscribeState,
    events: Seq<SubscribeEvent>,
    steps: Seq<SubscribeStep>,
    i: int,
)
    requires
        subscribe_run(state, events, steps),
        0 <= i < events.len(),
        reports_failure(events[i]),
    ensures
        events.len() == i + 1,
        steps[i] == internal_error() || steps[i] matches SubscribeStep::Finish(Err(_)),
    decreases i,
{
    if i > 0 {
        match steps[0] {
            SubscribeStep::Continue(next, _) => {
                lemma_failure_ends_the_run(next, events.drop_first(), steps.drop_first(), i - 1);
            },
            SubscribeStep::Finish(_) => {},
        }
    }
}

/// A run of the handler from any state takes at most five steps.
pub proof fn lemma_run_is_short(
    state: SubscribeState,
    events: Seq<SubscribeEvent>,
    steps: Seq<SubscribeStep>,
)
    requires
        subscribe_run(state, events, steps),
    ensures
        steps.len() <= 5,
{
    reveal_with_fuel(subscribe_run, 7);
}

} // verus!
