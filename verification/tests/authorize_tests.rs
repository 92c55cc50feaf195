use google_login::authorize::{
    authorize_redirect, has_room_for, request_auth, Redirect, SCOPE, STATE_TOKEN_LEN, URL_BUDGET,
};
use google_login::config::{google_oauth_client, ClientConfig, Environment};

fn config_with(client_id: &str, redirect_url: &str, auth_url: Option<&str>) -> ClientConfig {
    google_oauth_client(Environment {
        client_id: Some(client_id.to_string()),
        client_secret: Some("xyz".to_string()),
        redirect_url: Some(redirect_url.to_string()),
        auth_url: auth_url.map(|url| url.to_string()),
        token_url: None,
    })
    .unwrap()
}

fn example() -> ClientConfig {
    config_with("abc", "https://app.example/cb", None)
}

fn is_base64url(c: char) -> bool {
    c.is_ascii_alphanumeric() || c == '-' || c == '_'
}

#[test]
fn the_scope_is_identify() {
    assert_eq!(SCOPE, "identify");
}

#[test]
fn redirect_goes_to_google_and_names_the_client() {
    let redirect = request_auth(&example());
    assert_eq!(redirect.status, 302);
    assert!(redirect
        .location
        .starts_with("https://accounts.google.com/o/oauth2/v2/auth?"));
    assert!(redirect.location.contains("client_id=abc"));
}

#[test]
fn redirect_names_redirect_uri_scope_and_state() {
    let redirect = request_auth(&example());
    assert!(redirect
        .location
        .contains("redirect_uri=https%3A%2F%2Fapp.example%2Fcb"));
    assert!(redirect.location.contains("response_type=code"));
    assert!(redirect.location.contains("scope=identify"));
    assert!(!redirect.state.is_empty());
    assert!(redirect
        .location
        .contains(&format!("state={}", redirect.state)));
}

#[test]
fn a_fresh_state_is_22_characters_of_url_safe_base64() {
    let redirect = request_auth(&example());
    assert_eq!(redirect.state.chars().count(), 22);
    assert!(redirect.state.chars().all(is_base64url));
}

#[test]
fn successive_redirects_carry_different_states() {
    let config = example();
    let first = request_auth(&config);
    let second = request_auth(&config);
    assert_ne!(first.state, second.state);
    assert_ne!(first.location, second.location);
}

#[test]
fn the_url_for_a_given_state_is_exact() {
    let redirect = authorize_redirect(&example(), "s3cr3t".to_string());
    assert_eq!(
        redirect,
        Redirect {
            status: 302,
            location: "https://accounts.google.com/o/oauth2/v2/auth?response_type=code\
                       &client_id=abc&state=s3cr3t\
                       &redirect_uri=https%3A%2F%2Fapp.example%2Fcb&scope=identify"
                .to_string(),
            state: "s3cr3t".to_string(),
        }
    );
}

#[test]
fn the_same_state_gives_the_same_url() {
    let config = example();
    let first = authorize_redirect(&config, "same".to_string());
    let second = authorize_redirect(&config, "same".to_string());
    assert_eq!(first, second);
}

#[test]
fn values_are_form_encoded() {
    let config = config_with("a b&c/d", "https://app.example/cb?x=1", None);
    let redirect = authorize_redirect(&config, "p+q=r".to_string());
    assert!(redirect.location.contains("client_id=a+b%26c%2Fd&"));
    assert!(redirect.location.contains("state=p%2Bq%3Dr&"));
    assert!(redirect
        .location
        .contains("redirect_uri=https%3A%2F%2Fapp.example%2Fcb%3Fx%3D1&"));
}

#[test]
fn bytes_outside_ascii_are_encoded_by_their_utf8_bytes() {
    let config = config_with("caf\u{e9}", "https://app.example/cb", None);
    let redirect = authorize_redirect(&config, "t".to_string());
    assert!(redirect.location.contains("client_id=caf%C3%A9&"));
}

#[test]
fn plain_characters_stay_as_they_are() {
    let config = config_with("A-z_0.9*", "https://app.example/cb", None);
    let redirect = authorize_redirect(&config, "t".to_string());
    assert!(redirect.location.contains("client_id=A-z_0.9*&"));
}

#[test]
fn a_query_of_the_endpoint_is_kept_in_front() {
    let config = config_with(
        "abc",
        "https://app.example/cb",
        Some("https://login.example/auth?tenant=7"),
    );
    let redirect = authorize_redirect(&config, "t".to_string());
    assert_eq!(
        redirect.location,
        "https://login.example/auth?tenant=7&response_type=code&client_id=abc&state=t\
         &redirect_uri=https%3A%2F%2Fapp.example%2Fcb&scope=identify"
    );
}

#[test]
fn a_fragment_of_the_endpoint_stays_behind_the_query() {
    let config = config_with(
        "abc",
        "https://app.example/cb",
        Some("https://login.example/auth#top"),
    );
    let redirect = authorize_redirect(&config, "t".to_string());
    assert_eq!(
        redirect.location,
        "https://login.example/auth?response_type=code&client_id=abc&state=t\
         &redirect_uri=https%3A%2F%2Fapp.example%2Fcb&scope=identify#top"
    );
}

#[test]
fn an_empty_state_leaves_an_empty_value() {
    let redirect = authorize_redirect(&example(), String::new());
    assert!(redirect.location.contains("&state=&"));
    assert_eq!(redirect.state, "");
}

#[test]
fn an_ordinary_login_is_within_the_budget() {
    let config = example();
    assert_eq!(URL_BUDGET, 16 * 1024 * 1024);
    assert_eq!(STATE_TOKEN_LEN, 22);
    assert!(has_room_for(&config, STATE_TOKEN_LEN));
    assert!(has_room_for(&config, 0));
}

#[test]
fn the_budget_counts_every_text_in_bytes() {
    // "abc", the default endpoint, "https://app.example/cb" and "identify".
    let taken = 3 + 44 + 22 + 8;
    let config = example();
    assert!(has_room_for(&config, URL_BUDGET - taken));
    assert!(!has_room_for(&config, URL_BUDGET - taken + 1));
    assert!(!has_room_for(&config, usize::MAX));
    // One character of two bytes in the client id takes two.
    let config = config_with("ab\u{e9}", "https://app.example/cb", None);
    assert!(has_room_for(&config, URL_BUDGET - taken - 1));
    assert!(!has_room_for(&config, URL_BUDGET - taken));
}

#[test]
fn a_client_id_beyond_the_budget_leaves_no_room() {
    let config = config_with(&"a".repeat(URL_BUDGET + 1), "https://app.example/cb", None);
    assert!(!has_room_for(&config, 0));
    let config = config_with(&"a".repeat(URL_BUDGET - 44 - 22 - 8), "https://app.example/cb", None);
    assert!(has_room_for(&config, 0));
    assert!(!has_room_for(&config, 1));
}

#[test]
fn redirects_for_one_configuration_differ_only_in_the_state() {
    let config = example();
    let first = request_auth(&config);
    let second = request_auth(&config);
    assert_eq!(first.status, second.status);
    assert_eq!(
        first.location.replace(&first.state, "*"),
        second.location.replace(&second.state, "*")
    );
}
