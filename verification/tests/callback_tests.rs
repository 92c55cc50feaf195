use google_login::callback::{
    verify_auth, Action, AuthRequest, Event, Flow, ProfileRequest, TokenRequest, PROFILE_URL,
};
use google_login::config::{google_oauth_client, ClientConfig, Environment};
use google_login::error::LoginError;
use google_login::profile::User;

fn config() -> ClientConfig {
    google_oauth_client(Environment {
        client_id: Some("abc".to_string()),
        client_secret: Some("xyz".to_string()),
        redirect_url: Some("https://app.example/cb".to_string()),
        auth_url: None,
        token_url: None,
    })
    .unwrap()
}

fn callback(code: &str, state: &str, issued: Option<&str>) -> Event {
    Event::Callback {
        query: AuthRequest { code: code.to_string(), state: state.to_string() },
        issued_state: issued.map(|s| s.to_string()),
    }
}

fn granted(token: &str) -> Event {
    Event::TokenGranted { access_token: token.to_string() }
}

fn answered(status: u16, body: &str) -> Event {
    Event::ProfileAnswered { status, body: body.to_string() }
}

fn every_event() -> Vec<Event> {
    vec![
        callback("c", "s", None),
        callback("c", "s", Some("other")),
        granted("t"),
        Event::TokenRefused,
        answered(200, GOOD_BODY),
        answered(500, ""),
        Event::ProfileUnreachable,
        Event::TimedOut,
    ]
}

const GOOD_BODY: &str = r#"{"id":"42","username":"ada","discriminator":"0001"}"#;

#[test]
fn the_profile_is_kept_at_this_address() {
    assert_eq!(PROFILE_URL, "https://googleapp.com/api/users/@me");
}

#[test]
fn a_callback_asks_for_the_exchange_of_its_code() {
    let next = verify_auth(&config(), Flow::AwaitingCallback, callback("the-code", "s", None));
    assert_eq!(
        next,
        (
            Flow::AwaitingToken,
            Action::ExchangeCode(TokenRequest {
                token_url: "https://www.googleapis.com/oauth2/v3/token".to_string(),
                client_id: "abc".to_string(),
                client_secret: "xyz".to_string(),
                redirect_url: "https://app.example/cb".to_string(),
                code: "the-code".to_string(),
            })
        )
    );
}

#[test]
fn a_callback_with_the_issued_state_goes_on() {
    let (flow, action) =
        verify_auth(&config(), Flow::AwaitingCallback, callback("c", "tok", Some("tok")));
    assert_eq!(flow, Flow::AwaitingToken);
    assert!(matches!(action, Action::ExchangeCode(_)));
}

#[test]
fn a_callback_with_another_state_is_turned_away() {
    let next = verify_auth(&config(), Flow::AwaitingCallback, callback("c", "tok", Some("kot")));
    assert_eq!(next, (Flow::Finished, Action::Fail(LoginError::InvalidState)));
}

#[test]
fn a_granted_token_asks_for_the_profile() {
    let next = verify_auth(&config(), Flow::AwaitingToken, granted("tkn"));
    assert_eq!(
        next,
        (
            Flow::AwaitingProfile,
            Action::FetchProfile(ProfileRequest {
                url: "https://googleapp.com/api/users/@me".to_string(),
                bearer: "tkn".to_string(),
            })
        )
    );
}

#[test]
fn a_refused_code_fails_with_token_exchange_and_never_fetches() {
    let config = config();
    let (flow, action) = verify_auth(&config, Flow::AwaitingCallback, callback("bad", "s", None));
    assert!(matches!(action, Action::ExchangeCode(_)));
    let (mut flow, action) = verify_auth(&config, flow, Event::TokenRefused);
    assert_eq!(action, Action::Fail(LoginError::TokenExchange));
    assert_eq!(flow, Flow::Finished);
    for event in every_event() {
        let (next, action) = verify_auth(&config, flow, event);
        assert_eq!(action, Action::Idle);
        assert_eq!(next, Flow::Finished);
        flow = next;
    }
}

#[test]
fn a_profile_endpoint_answering_401_fails_with_profile_fetch() {
    let next = verify_auth(&config(), Flow::AwaitingProfile, answered(401, GOOD_BODY));
    assert_eq!(next, (Flow::Finished, Action::Fail(LoginError::ProfileFetch)));
}

#[test]
fn only_2xx_counts_as_an_answer() {
    for status in [0, 100, 199, 300, 302, 400, 404, 500, 65535] {
        let next = verify_auth(&config(), Flow::AwaitingProfile, answered(status, GOOD_BODY));
        assert_eq!(next, (Flow::Finished, Action::Fail(LoginError::ProfileFetch)));
    }
    for status in [200, 201, 204, 299] {
        let (flow, action) =
            verify_auth(&config(), Flow::AwaitingProfile, answered(status, GOOD_BODY));
        assert_eq!(flow, Flow::Finished);
        assert!(matches!(action, Action::LogProfile(_)));
    }
}

#[test]
fn a_profile_missing_a_required_field_fails_with_deserialization() {
    for body in [
        r#"{"username":"ada","discriminator":"0001"}"#,
        r#"{"id":"42","discriminator":"0001"}"#,
        r#"{"id":"42","username":"ada"}"#,
    ] {
        let next = verify_auth(&config(), Flow::AwaitingProfile, answered(200, body));
        assert_eq!(next, (Flow::Finished, Action::Fail(LoginError::Deserialization)));
    }
}

#[test]
fn an_unreachable_profile_endpoint_fails_with_profile_fetch() {
    let next = verify_auth(&config(), Flow::AwaitingProfile, Event::ProfileUnreachable);
    assert_eq!(next, (Flow::Finished, Action::Fail(LoginError::ProfileFetch)));
}

#[test]
fn a_call_that_takes_too_long_fails_with_timeout() {
    for flow in [Flow::AwaitingToken, Flow::AwaitingProfile] {
        let next = verify_auth(&config(), flow, Event::TimedOut);
        assert_eq!(next, (Flow::Finished, Action::Fail(LoginError::Timeout)));
    }
}

#[test]
fn events_out_of_turn_change_nothing() {
    let config = config();
    let out_of_turn = [
        (Flow::AwaitingCallback, granted("t")),
        (Flow::AwaitingCallback, Event::TokenRefused),
        (Flow::AwaitingCallback, answered(200, GOOD_BODY)),
        (Flow::AwaitingCallback, Event::ProfileUnreachable),
        (Flow::AwaitingCallback, Event::TimedOut),
        (Flow::AwaitingToken, callback("c", "s", None)),
        (Flow::AwaitingToken, answered(200, GOOD_BODY)),
        (Flow::AwaitingToken, Event::ProfileUnreachable),
        (Flow::AwaitingProfile, callback("c", "s", Some("x"))),
        (Flow::AwaitingProfile, granted("t")),
        (Flow::AwaitingProfile, Event::TokenRefused),
    ];
    for (flow, event) in out_of_turn {
        assert_eq!(verify_auth(&config, flow, event), (flow, Action::Idle));
    }
}

#[test]
fn a_whole_login_ends_with_the_profile() {
    let config = config();
    let (flow, action) = verify_auth(&config, Flow::AwaitingCallback, callback("code", "s", None));
    let request = match action {
        Action::ExchangeCode(request) => request,
        other => panic!("unexpected {:?}", other),
    };
    assert_eq!(request.code, "code");
    let (flow, action) = verify_auth(&config, flow, granted("tkn"));
    let request = match action {
        Action::FetchProfile(request) => request,
        other => panic!("unexpected {:?}", other),
    };
    assert_eq!(request.bearer, "tkn");
    let body = r#"{"id":"42","avatar":null,"username":"ada","discriminator":"0001","email":"ada@example.com"}"#;
    let (flow, action) = verify_auth(&config, flow, answered(200, body));
    assert_eq!(flow, Flow::Finished);
    assert_eq!(
        action,
        Action::LogProfile(User {
            id: "42".to_string(),
            avatar: None,
            username: "ada".to_string(),
            discriminator: "0001".to_string(),
            email: Some("ada@example.com".to_string()),
        })
    );
}
