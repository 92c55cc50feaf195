//! The second leg of the login: from the provider's callback to the
//! visitor's profile.
//!
//! The way leads over two network calls, which this crate does not make.
//! [`verify_auth`] is the transition function of a small state machine: it
//! takes what has happened and answers with what the host is to do next.
//! The host performs the action and comes back with the event that
//! answers it.

use vstd::prelude::*;
use crate::config::{text_of, ClientConfig, ClientConfigView};
use crate::error::LoginError;
use crate::profile::{decode_profile, decoded, User, UserView};

verus! {

/// Where the provider keeps the profile of the visitor who granted access.
pub const PROFILE_URL: &'static str = "https://googleapp.com/api/users/@me";

/// The query of the provider's callback.
#[derive(Clone, Debug, PartialEq, Eq)]
pub struct AuthRequest {
    /// The authorization code to trade for a token.
    pub code: String,
    /// The anti-forgery token, as the provider echoes it.
    pub state: String,
}

/// A callback query as texts.
pub struct AuthRequestView {
    pub code: Seq<char>,
    pub state: Seq<char>,
}

impl View for AuthRequest {
    type V = AuthRequestView;

    open spec fn view(&self) -> AuthRequestView {
        AuthRequestView { code: self.code@, state: self.state@ }
    }
}

/// How far a login has come.
#[derive(Clone, Copy, Debug, PartialEq, Eq, Structural)]
pub enum Flow {
    /// The visitor is with the provider.
    AwaitingCallback,
    /// The code is being traded for a token.
    AwaitingToken,
    /// The profile is being fetched.
    AwaitingProfile,
    /// The login has ended, well or badly.
    Finished,
}

/// What can happen to a login.
#[derive(Clone, Debug, PartialEq, Eq)]
pub enum Event {
    /// The provider sent the visitor back. `issued_state` is the
    /// anti-forgery token that went out with the redirect, where the host
    /// has kept it.
    Callback { query: AuthRequest, issued_state: Option<String> },
    /// The token endpoint granted an access token.
    TokenGranted { access_token: String },
    /// The token endpoint could not be reached, refused, or answered with
    /// something that is no token.
    TokenRefused,
    /// The profile endpoint answered.
    ProfileAnswered { status: u16, body: String },
    /// The profile endpoint could not be reached.
    ProfileUnreachable,
    /// The call that was under way did not end in time.
    TimedOut,
}

/// An [`Event`] as texts.
pub enum EventView {
    Callback { query: AuthRequestView, issued_state: Option<Seq<char>> },
    TokenGranted { access_token: Seq<char> },
    TokenRefused,
    ProfileAnswered { status: u16, body: Seq<char> },
    ProfileUnreachable,
    TimedOut,
}

impl View for Event {
    type V = EventView;

    open spec fn view(&self) -> EventView {
        match self {
            Event::Callback { query, issued_state } => EventView::Callback {
                query: query@,
                issued_state: text_of(*issued_state),
            },
            Event::TokenGranted { access_token } => EventView::TokenGranted {
                access_token: access_token@,
            },
            Event::TokenRefused => EventView::TokenRefused,
            Event::ProfileAnswered { status, body } => EventView::ProfileAnswered {
                status: *status,
                body: body@,
            },
            Event::ProfileUnreachable => EventView::ProfileUnreachable,
            Event::TimedOut => EventView::TimedOut,
        }
    }
}

/// A request to the token endpoint for the authorization-code grant.
#[derive(Clone, Debug, PartialEq, Eq)]
pub struct TokenRequest {
    pub token_url: String,
    pub client_id: String,
    pub client_secret: String,
    pub redirect_url: String,
    pub code: String,
}

/// A [`TokenRequest`] as texts.
pub struct TokenRequestView {
    pub token_url: Seq<char>,
    pub client_id: Seq<char>,
    pub client_secret: Seq<char>,
    pub redirect_url: Seq<char>,
    pub code: Seq<char>,
}

impl View for TokenRequest {
    type V = TokenRequestView;

    open spec fn view(&self) -> TokenRequestView {
        TokenRequestView {
            token_url: self.token_url@,
            client_id: self.client_id@,
            client_secret: self.client_secret@,
            redirect_url: self.redirect_url@,
            code: self.code@,
        }
    }
}

/// A `GET` of `url` with `bearer` as the bearer credential.
#[derive(Clone, Debug, PartialEq, Eq)]
pub struct ProfileRequest {
    pub url: String,
    pub bearer: String,
}

/// A [`ProfileRequest`] as texts.
pub struct ProfileRequestView {
    pub url: Seq<char>,
    pub bearer: Seq<char>,
}

impl View for ProfileRequest {
    type V = ProfileRequestView;

    open spec fn view(&self) -> ProfileRequestView {
        ProfileRequestView { url: self.url@, bearer: self.bearer@ }
    }
}

/// What the host is to do next.
#[derive(Clone, Debug, PartialEq, Eq)]
pub enum Action {
    /// Trade the code for a token, and come back with
    /// [`Event::TokenGranted`], [`Event::TokenRefused`] or
    /// [`Event::TimedOut`].
    ExchangeCode(TokenRequest),
    /// Fetch the profile, and come back with [`Event::ProfileAnswered`],
    /// [`Event::ProfileUnreachable`] or [`Event::TimedOut`].
    FetchProfile(ProfileRequest),
    /// The login succeeded: write the profile to the diagnostic log.
    LogProfile(User),
    /// The login failed: answer the visitor with this error.
    Fail(LoginError),
    /// Nothing: the event does not answer what the login is waiting for.
    Idle,
}

/// An [`Action`] as texts.
pub enum ActionView {
    ExchangeCode(TokenRequestView),
    FetchProfile(ProfileRequestView),
    LogProfile(UserView),
    Fail(LoginError),
    Idle,
}

impl View for Action {
    type V = ActionView;

    open spec fn view(&self) -> ActionView {
        match self {
            Action::ExchangeCode(request) => ActionView::ExchangeCode(request@),
            Action::FetchProfile(request) => ActionView::FetchProfile(request@),
            Action::LogProfile(user) => ActionView::LogProfile(user@),
            Action::Fail(error) => ActionView::Fail(*error),
            Action::Idle => ActionView::Idle,
        }
    }
}

// ----- the transition function -------------------------------------------

/// A status of the 2xx class.
pub open spec fn is_success(status: u16) -> bool {
    200 <= status <= 299
}

/// Whether a callback is to be turned away for its anti-forgery token: the
/// host knows the token it issued, and the callback echoes another.
pub open spec fn is_forged(query: AuthRequestView, issued_state: Option<Seq<char>>) -> bool {
    issued_state matches Some(issued) && issued != query.state
}

/// The token request for a code.
pub open spec fn token_request_for(config: ClientConfigView, code: Seq<char>) -> TokenRequestView {
    TokenRequestView {
        token_url: config.token_url,
        client_id: config.client_id,
        client_secret: config.client_secret,
        redirect_url: config.redirect_url,
        code,
    }
}

/// How the login ends on an answer of the profile endpoint: outside 2xx
/// the fetch has failed; within, the body must hold a profile.
pub open spec fn conclusion(status: u16, body: Seq<char>) -> ActionView {
    if !is_success(status) {
        ActionView::Fail(LoginError::ProfileFetch)
    } else {
        match decoded(body) {
            Some(profile) => ActionView::LogProfile(profile),
            None => ActionView::Fail(LoginError::Deserialization),
        }
    }
}

/// The state after an event, and the action that the event calls for.
///
/// A login goes through its states in one direction. Each state answers to
/// the events that belong to it; any other event leaves the state as it
/// is and calls for nothing.
pub open spec fn step(config: ClientConfigView, flow: Flow, event: EventView) -> (
    Flow,
    ActionView,
) {
    match (flow, event) {
        (Flow::AwaitingCallback, EventView::Callback { query, issued_state }) => {
            if is_forged(query, issued_state) {
                (Flow::Finished, ActionView::Fail(LoginError::InvalidState))
            } else {
                (
                    Flow::AwaitingToken,
                    ActionView::ExchangeCode(token_request_for(config, query.code)),
                )
            }
        },
        (Flow::AwaitingToken, EventView::TokenGranted { access_token }) => (
            Flow::AwaitingProfile,
            ActionView::FetchProfile(ProfileRequestView { url: PROFILE_URL@, bearer: access_token }),
        ),
        (Flow::AwaitingToken, EventView::TokenRefused) => (
            Flow::Finished,
            ActionView::Fail(LoginError::TokenExchange),
        ),
        (Flow::AwaitingToken, EventView::TimedOut) => (
            Flow::Finished,
            ActionView::Fail(LoginError::Timeout),
        ),
        (Flow::AwaitingProfile, EventView::ProfileAnswered { status, body }) => (
            Flow::Finished,
            conclusion(status, body),
        ),
        (Flow::AwaitingProfile, EventView::ProfileUnreachable) => (
            Flow::Finished,
            ActionView::Fail(LoginError::ProfileFetch),
        ),
        (Flow::AwaitingProfile, EventView::TimedOut) => (
            Flow::Finished,
            ActionView::Fail(LoginError::Timeout),
        ),
        _ => (flow, ActionView::Idle),
    }
}

/// Compares the echoed anti-forgery token with the issued one.
fn forged(query: &AuthRequest, issued_state: &Option<String>) -> (r: bool)
    ensures
        r == is_forged(query@, text_of(*issued_state)),
{
    match issued_state {
        Some(issued) => *issued != query.state,
        None => false,
    }
}

/// Ends the login on an answer of the profile endpoint.
fn conclude(status: u16, body: &str) -> (action: Action)
    ensures
        action@ == conclusion(status, body@),
{
    if status < 200 || status > 299 {
        return Action::Fail(LoginError::ProfileFetch);
    }
    match decode_profile(body) {
        Ok(user) => Action::LogProfile(user),
        Err(_) => Action::Fail(LoginError::Deserialization),
    }
}

/// Takes the login one step further: from the state it is in and the event
/// that has come, to the state it is in then and the action to perform.
///
/// A login starts in [`Flow::AwaitingCallback`]; [`step`] says where each
/// event leads.
pub fn verify_auth(config: &ClientConfig, flow: Flow, event: Event) -> (next: (Flow, Action))
    ensures
        next.0 == step(config@, flow, event@).0,
        next.1@ == step(config@, flow, event@).1,
{
    match flow {
        Flow::AwaitingCallback => match event {
            Event::Callback { query, issued_state } => {
                if forged(&query, &issued_state) {
                    (Flow::Finished, Action::Fail(LoginError::InvalidState))
                } else {
                    let request = TokenRequest {
                        token_url: config.token_url().clone(),
                        client_id: config.client_id().clone(),
                        client_secret: config.client_secret().clone(),
                        redirect_url: config.redirect_url().clone(),
                        code: query.code,
                    };
                    (Flow::AwaitingToken, Action::ExchangeCode(request))
                }
            },
            _ => (flow, Action::Idle),
        },
        Flow::AwaitingToken => match event {
            Event::TokenGranted { access_token } => {
                let request = ProfileRequest { url: PROFILE_URL.to_owned(), bearer: access_token };
                (Flow::AwaitingProfile, Action::FetchProfile(request))
            },
            Event::TokenRefused => (Flow::Finished, Action::Fail(LoginError::TokenExchange)),
            Event::TimedOut => (Flow::Finished, Action::Fail(LoginError::Timeout)),
            _ => (flow, Action::Idle),
        },
        Flow::AwaitingProfile => match event {
            Event::ProfileAnswered { status, body } => (
                Flow::Finished,
                conclude(status, body.as_str()),
            ),
            Event::ProfileUnreachable => (Flow::Finished, Action::Fail(LoginError::ProfileFetch)),
            Event::TimedOut => (Flow::Finished, Action::Fail(LoginError::Timeout)),
            _ => (flow, Action::Idle),
        },
        Flow::Finished => (flow, Action::Idle),
    }
}

// ----- whole logins --------------------------------------------------------

/// The actions that a sequence of events calls for, one for each event,
/// when the login starts in `flow`.
pub open spec fn run(config: ClientConfigView, flow: Flow, events: Seq<EventView>) -> Seq<
    ActionView,
>
    decreases events.len(),
{
    if events.len() == 0 {
        Seq::empty()
    } else {
        let (next, action) = step(config, flow, events[0]);
        seq![action] + run(config, next, events.drop_first())
    }
}

/// A login that has ended calls for nothing more, whatever happens.
pub proof fn lemma_finished_calls_for_nothing(config: ClientConfigView, events: Seq<EventView>)
    ensures
        run(config, Flow::Finished, events).len() == events.len(),
        forall|i: int|
            0 <= i < events.len() ==> #[trigger] run(config, Flow::Finished, events)[i]
                == ActionView::Idle,
    decreases events.len(),
{
    if events.len() > 0 {
        lemma_finished_calls_for_nothing(config, events.drop_first());
        let actions = run(config, Flow::Finished, events);
        let rest = run(config, Flow::Finished, events.drop_first());
        assert forall|i: int| 0 <= i < events.len() implies #[trigger] actions[i]
            == ActionView::Idle by {
            if i > 0 {
                assert(actions[i] == rest[i - 1]);
            }
        }
    }
}

/// A login whose code the token endpoint refuses fails with
/// [`LoginError::TokenExchange`], and never fetches the profile, whatever
/// happens afterwards.
pub proof fn lemma_refused_token_never_fetches(config: ClientConfigView, events: Seq<EventView>)
    requires
        events.len() > 0,
        events[0] is TokenRefused,
    ensures
        run(config, Flow::AwaitingToken, events).len() == events.len(),
        run(config, Flow::AwaitingToken, events)[0] == ActionView::Fail(LoginError::TokenExchange),
        forall|i: int|
            0 <= i < events.len() ==> !(#[trigger] run(config, Flow::AwaitingToken, events)[i]
                is FetchProfile),
{
    let actions = run(config, Flow::AwaitingToken, events);
    let rest = run(config, Flow::Finished, events.drop_first());
    lemma_finished_calls_for_nothing(config, events.drop_first());
    assert(actions =~= seq![ActionView::Fail(LoginError::TokenExchange)] + rest);
    assert forall|i: int| 0 <= i < events.len() implies !(#[trigger] actions[i]
        is FetchProfile) by {
        if i > 0 {
            assert(actions[i] == rest[i - 1]);
        }
    }
}

/// The profile is asked for in one situation only: a token was awaited,
/// and granted. The request then goes to [`PROFILE_URL`] with that token.
pub proof fn lemma_fetch_follows_a_grant(config: ClientConfigView, flow: Flow, event: EventView)
    requires
        step(config, flow, event).1 is FetchProfile,
    ensures
        flow == Flow::AwaitingToken,
        event matches EventView::TokenGranted { access_token } && step(config, flow, event).1
            == ActionView::FetchProfile(
            ProfileRequestView { url: PROFILE_URL@, bearer: access_token },
        ),
{
}

} // verus!
