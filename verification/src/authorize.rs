//! The first leg of the login: the redirect that sends a visitor to the
//! provider's authorization endpoint.
//!
//! The URL is built by the `oauth2` crate. What this module states of it is
//! its query: the five pairs that the provider reads, form-encoded and in
//! the order in which `oauth2` writes them.

use vstd::prelude::*;
use vstd::utf8::encode_utf8;
use crate::config::{url_parses, ClientConfig, ClientConfigView};

verus! {

/// The scope that the login asks the provider for.
pub const SCOPE: &'static str = "identify";

/// The HTTP status of the redirect.
pub const REDIRECT_STATUS: u16 = 302;

/// The number of characters of a freshly made anti-forgery token.
pub const STATE_TOKEN_LEN: usize = 22;

/// The most bytes that the texts of one authorization request may have
/// together: 16 MiB.
pub const URL_BUDGET: usize = 0x100_0000;

// ----- form encoding ---------------------------------------------------

/// The bytes that the `application/x-www-form-urlencoded` byte serializer
/// copies unchanged: `*`, `-`, `.`, `_`, digits and ASCII letters.
pub open spec fn stays_as_is(byte: u8) -> bool {
    ||| byte == 0x2a
    ||| byte == 0x2d
    ||| byte == 0x2e
    ||| byte == 0x5f
    ||| 0x30 <= byte <= 0x39
    ||| 0x41 <= byte <= 0x5a
    ||| 0x61 <= byte <= 0x7a
}

/// The upper-case hexadecimal digit for a value below 16.
pub open spec fn hex_digit(nibble: u8) -> char {
    if nibble < 10 {
        ((0x30 + nibble) as u8) as char
    } else {
        ((0x37 + nibble) as u8) as char
    }
}

/// What the serializer writes for one byte: the byte itself where it
/// [`stays_as_is`], `+` for a space, else `%` and two hexadecimal digits.
pub open spec fn encoded_byte(byte: u8) -> Seq<char> {
    if stays_as_is(byte) {
        seq![byte as char]
    } else if byte == 0x20 {
        seq!['+']
    } else {
        seq!['%', hex_digit(byte / 16), hex_digit(byte % 16)]
    }
}

/// What the serializer writes for a run of bytes.
pub open spec fn encoded_bytes(bytes: Seq<u8>) -> Seq<char>
    decreases bytes.len(),
{
    if bytes.len() == 0 {
        Seq::empty()
    } else {
        encoded_byte(bytes[0]) + encoded_bytes(bytes.drop_first())
    }
}

/// The form encoding of a text: that of its UTF-8 bytes.
pub open spec fn form_encoded(text: Seq<char>) -> Seq<char> {
    encoded_bytes(encode_utf8(text))
}

/// One `name=value` pair of a query, both sides form-encoded.
pub open spec fn form_pair(pair: (Seq<char>, Seq<char>)) -> Seq<char> {
    form_encoded(pair.0) + seq!['='] + form_encoded(pair.1)
}

/// Pairs written one after the other with `&` between them.
pub open spec fn serialized(pairs: Seq<(Seq<char>, Seq<char>)>) -> Seq<char>
    decreases pairs.len(),
{
    if pairs.len() == 0 {
        Seq::empty()
    } else if pairs.len() == 1 {
        form_pair(pairs[0])
    } else {
        serialized(pairs.drop_last()) + seq!['&'] + form_pair(pairs.last())
    }
}

// ----- the authorization URL --------------------------------------------

/// The pairs of an authorization request, in the order of the URL. An
/// empty scope is not written.
pub open spec fn authorize_pairs(
    client_id: Seq<char>,
    state: Seq<char>,
    redirect_url: Seq<char>,
    scope: Seq<char>,
) -> Seq<(Seq<char>, Seq<char>)> {
    let pairs = seq![
        ("response_type"@, "code"@),
        ("client_id"@, client_id),
        ("state"@, state),
        ("redirect_uri"@, redirect_url),
    ];
    if scope.len() == 0 {
        pairs
    } else {
        pairs.push(("scope"@, scope))
    }
}

/// `piece` stands in `text` at position `at`.
pub open spec fn stands_at(text: Seq<char>, piece: Seq<char>, at: int) -> bool {
    &&& 0 <= at
    &&& at + piece.len() <= text.len()
    &&& text.subrange(at, at + piece.len()) == piece
}

/// `piece` occurs somewhere in `text`.
pub open spec fn occurs_in(text: Seq<char>, piece: Seq<char>) -> bool {
    exists|at: int| stands_at(text, piece, at)
}

/// `query` stands in `url` at position `at` as the last part of the URL's
/// query: it follows a `?` or a `&`, and nothing but a fragment follows it.
pub open spec fn closes_query_at(url: Seq<char>, query: Seq<char>, at: int) -> bool {
    &&& 0 < at
    &&& stands_at(url, query, at)
    &&& url[at - 1] == '?' || url[at - 1] == '&'
    &&& at + query.len() == url.len() || url[at + query.len()] == '#'
}

/// The query of `url` ends with `query`.
pub open spec fn carries_query(url: Seq<char>, query: Seq<char>) -> bool {
    exists|at: int| closes_query_at(url, query, at)
}

/// The length of a text in bytes of UTF-8.
pub open spec fn byte_len(text: Seq<char>) -> nat {
    encode_utf8(text).len()
}

/// The texts of an authorization request are within [`URL_BUDGET`]: the
/// client id, the two URLs and the scope of the configuration, and a token
/// of `state_bytes` bytes.
///
/// The budget is a limit of the machinery, not of logins: the `url` crate
/// keeps the offsets of a URL in 32 bits and gives up where a URL outgrows
/// them. No login comes near 16 MiB, and within them a URL stays far below
/// 4 GiB, by a factor of over two hundred.
pub open spec fn fits_a_url(config: ClientConfigView, state_bytes: nat) -> bool {
    byte_len(config.client_id) + byte_len(config.auth_url) + byte_len(config.redirect_url)
        + byte_len(SCOPE@) + state_bytes <= URL_BUDGET
}

/// What an authorization URL holds of its endpoint: the text in front of
/// the pairs and the text behind them. Both are the same for every request
/// to one endpoint.
pub uninterp spec fn authorize_frame(auth_url: Seq<char>) -> (Seq<char>, Seq<char>);

/// `url` is `query` in the frame of an endpoint: the front, which leads up
/// to the query with a `?` or a `&`, then the query, then the back, which
/// is nothing or a fragment.
pub open spec fn is_framed(url: Seq<char>, frame: (Seq<char>, Seq<char>), query: Seq<char>) -> bool {
    &&& url == frame.0 + query + frame.1
    &&& frame.0.len() > 0
    &&& frame.0.last() == '?' || frame.0.last() == '&'
    &&& frame.1.len() == 0 || frame.1[0] == '#'
}

/// Builds the authorization URL with `oauth2`: a client made of the client
/// id, the authorization endpoint and the redirect URL, then
/// `Client::authorize_url` with the given state, `add_scope`, and
/// `AuthorizationRequest::url`.
///
/// Trusted: the URL is the pairs of the request in the frame of the
/// endpoint, as `AuthorizationRequest::url`, `Url::query_pairs_mut` and
/// `form_urlencoded::Serializer` show. The pairs `response_type`,
/// `client_id`, `state`, `redirect_uri` and, unless it is empty, `scope`
/// are written in this order, each as `name=value` with both sides passed
/// through the form-urlencoded byte serializer, and `&` between them. In
/// front of them stands the parsed endpoint without its fragment, with a
/// `?` added where it has no query and a `&` where it has one that is not
/// empty; behind them stands the endpoint's fragment, if it has one. Front
/// and back come of the endpoint alone and are named [`authorize_frame`];
/// what the parser makes of the endpoint is not claimed.
///
/// Two demands keep the call from panicking. The two URLs must parse:
/// `AuthUrl::new` and `RedirectUrl::new` are unwrapped. And the five texts
/// must be within [`URL_BUDGET`] together: `Url::query_pairs_mut`, and the
/// serializer when it puts the fragment back, unwrap the conversion of the
/// URL's length to 32 bits. Within the budget the query takes at most
/// three bytes for each byte of a value, and the endpoint, which the parser
/// may lengthen (percent-encoding, a host name spelled out in ASCII), stays
/// as far below the limit.
#[verifier::external_body]
fn authorize_url(
    client_id: &str,
    auth_url: &str,
    redirect_url: &str,
    scope: &str,
    state: &str,
) -> (url: String)
    requires
        url_parses(auth_url@),
        url_parses(redirect_url@),
        byte_len(client_id@) + byte_len(auth_url@) + byte_len(redirect_url@) + byte_len(scope@)
            + byte_len(state@) <= URL_BUDGET,
    ensures
        is_framed(
            url@,
            authorize_frame(auth_url@),
            serialized(authorize_pairs(client_id@, state@, redirect_url@, scope@)),
        ),
{
    let client = oauth2::basic::BasicClient::new(
        oauth2::ClientId::new(client_id.to_string()),
        None,
        oauth2::AuthUrl::new(auth_url.to_string()).unwrap(),
        None,
    )
    .set_redirect_uri(oauth2::RedirectUrl::new(redirect_url.to_string()).unwrap());
    let request = client.authorize_url(|| oauth2::CsrfToken::new(state.to_string()));
    request.add_scope(oauth2::Scope::new(scope.to_string())).url().0.to_string()
}

// ----- the anti-forgery token -------------------------------------------

/// A character of the URL-safe base64 alphabet.
pub open spec fn is_base64url(c: char) -> bool {
    ||| 'A' <= c <= 'Z'
    ||| 'a' <= c <= 'z'
    ||| '0' <= c <= '9'
    ||| c == '-'
    ||| c == '_'
}

/// The shape of every freshly made anti-forgery token: 22 characters of
/// URL-safe base64, which is 128 bits.
pub open spec fn is_state_token(token: Seq<char>) -> bool {
    &&& token.len() == STATE_TOKEN_LEN
    &&& forall|i: int| 0 <= i < token.len() ==> is_base64url(#[trigger] token[i])
}

/// Draws a new anti-forgery token with `oauth2::CsrfToken::new_random`.
///
/// Trusted: the token is 16 random bytes in URL-safe base64 without
/// padding, hence 22 characters of that alphabet. Which ones is left open:
/// the bytes come from the thread's random number generator.
#[verifier::external_body]
fn fresh_state() -> (token: String)
    ensures
        is_state_token(token@),
{
    oauth2::CsrfToken::new_random().secret().clone()
}

// ----- the redirect -----------------------------------------------------

/// An HTTP redirect to the provider, and the anti-forgery token that went
/// into it. The host answers the visitor with `status` and a `Location`
/// header of `location`, and keeps `state` to compare it with the one that
/// the provider echoes (see [`crate::callback`]).
#[derive(Clone, Debug, PartialEq, Eq)]
pub struct Redirect {
    pub status: u16,
    pub location: String,
    pub state: String,
}

/// What holds of a redirect made for `config` with the token `state`.
pub open spec fn is_redirect_for(
    redirect: Redirect,
    config: ClientConfigView,
    state: Seq<char>,
) -> bool {
    &&& redirect.status == REDIRECT_STATUS
    &&& redirect.state@ == state
    &&& is_framed(
        redirect.location@,
        authorize_frame(config.auth_url),
        serialized(authorize_pairs(config.client_id, state, config.redirect_url, SCOPE@)),
    )
}

/// The URL names a login: somewhere in it stand `client_id=`,
/// `redirect_uri=` and `state=`, each followed by the form encoding of its
/// value.
pub open spec fn names_the_login(
    url: Seq<char>,
    client_id: Seq<char>,
    redirect_url: Seq<char>,
    state: Seq<char>,
) -> bool {
    &&& occurs_in(url, "client_id="@ + form_encoded(client_id))
    &&& occurs_in(url, "redirect_uri="@ + form_encoded(redirect_url))
    &&& occurs_in(url, "state="@ + form_encoded(state))
}

/// Tells whether the texts of an authorization request for `config`, with
/// a token of `state_bytes` bytes, are within [`URL_BUDGET`]. A host asks
/// this before it calls [`authorize_redirect`] or [`request_auth`].
pub fn has_room_for(config: &ClientConfig, state_bytes: usize) -> (r: bool)
    ensures
        r == fits_a_url(config@, state_bytes as nat),
{
    let client_id = config.client_id().as_str().as_bytes().len();
    let auth_url = config.auth_url().as_str().as_bytes().len();
    let redirect_url = config.redirect_url().as_str().as_bytes().len();
    let scope = SCOPE.as_bytes().len();
    if client_id > URL_BUDGET {
        return false;
    }
    let left: usize = URL_BUDGET - client_id;
    if auth_url > left {
        return false;
    }
    let left: usize = left - auth_url;
    if redirect_url > left {
        return false;
    }
    let left: usize = left - redirect_url;
    if scope > left {
        return false;
    }
    state_bytes <= left - scope
}

/// The redirect for a given anti-forgery token: a 302 to the URL that
/// `oauth2` builds of the configuration, the scope [`SCOPE`] and the token.
///
/// The texts must be within [`URL_BUDGET`]; [`has_room_for`] tells
/// whether they are, given the token's length in bytes.
pub fn authorize_redirect(config: &ClientConfig, state: String) -> (redirect: Redirect)
    requires
        fits_a_url(config@, byte_len(state@)),
    ensures
        is_redirect_for(redirect, config@, state@),
        names_the_login(redirect.location@, config@.client_id, config@.redirect_url, state@),
{
    let location = authorize_url(
        config.client_id().as_str(),
        config.auth_url().as_str(),
        config.redirect_url().as_str(),
        SCOPE,
        state.as_str(),
    );
    let redirect = Redirect { status: REDIRECT_STATUS, location, state };
    proof {
        lemma_redirect_names_the_login(redirect, config@, redirect.state@);
    }
    redirect
}

/// Begins a login: draws a fresh anti-forgery token and makes the redirect
/// that carries it. The token is never empty, and the URL holds it as it
/// is, behind `state=`.
///
/// The texts must be within [`URL_BUDGET`]; [`has_room_for`] tells
/// whether they are, for the [`STATE_TOKEN_LEN`] bytes of a fresh token.
pub fn request_auth(config: &ClientConfig) -> (redirect: Redirect)
    requires
        fits_a_url(config@, STATE_TOKEN_LEN as nat),
    ensures
        is_state_token(redirect.state@),
        redirect.state@.len() > 0,
        is_redirect_for(redirect, config@, redirect.state@),
        names_the_login(
            redirect.location@,
            config@.client_id,
            config@.redirect_url,
            redirect.state@,
        ),
        occurs_in(redirect.location@, "state="@ + redirect.state@),
{
    let state = fresh_state();
    proof {
        lemma_state_token_is_plain(state@);
        lemma_plain_text_takes_a_byte_each(state@);
    }
    let redirect = authorize_redirect(config, state);
    proof {
        lemma_redirect_names_the_login(redirect, config@, redirect.state@);
    }
    redirect
}

// ----- what the URL holds -----------------------------------------------

/// A character that form encoding leaves as it is.
pub open spec fn is_plain_char(c: char) -> bool {
    c <= '\u{7f}' && stays_as_is(c as u8)
}

/// A text made of characters that form encoding leaves as they are.
pub open spec fn is_plain(text: Seq<char>) -> bool {
    forall|i: int| 0 <= i < text.len() ==> is_plain_char(#[trigger] text[i])
}

proof fn lemma_no_char_is_below_nul(c: char)
    ensures
        '\0' <= c,
{
}

proof fn lemma_kept_bytes(bytes: Seq<u8>)
    requires
        forall|i: int| 0 <= i < bytes.len() ==> stays_as_is(#[trigger] bytes[i]),
    ensures
        encoded_bytes(bytes).len() == bytes.len(),
        forall|i: int| 0 <= i < bytes.len() ==> #[trigger] encoded_bytes(bytes)[i] == bytes[i] as char,
    decreases bytes.len(),
{
    if bytes.len() > 0 {
        let rest = bytes.drop_first();
        assert forall|i: int| 0 <= i < rest.len() implies stays_as_is(#[trigger] rest[i]) by {
            assert(rest[i] == bytes[i + 1]);
        }
        lemma_kept_bytes(rest);
        assert forall|i: int| 0 <= i < bytes.len() implies #[trigger] encoded_bytes(bytes)[i]
            == bytes[i] as char by {
            if i > 0 {
                assert(encoded_bytes(bytes)[i] == encoded_bytes(rest)[i - 1]);
                assert(rest[i - 1] == bytes[i]);
            }
        }
    }
}

/// A plain text has as many bytes as characters.
pub proof fn lemma_plain_text_takes_a_byte_each(text: Seq<char>)
    requires
        is_plain(text),
    ensures
        byte_len(text) == text.len(),
{
    assert(vstd::utf8::is_ascii_chars(text)) by {
        assert forall|i: int| 0 <= i < text.len() implies '\0' <= #[trigger] text[i] <= '\u{7f}' by {
            assert(is_plain_char(text[i]));
            lemma_no_char_is_below_nul(text[i]);
        }
    }
    vstd::utf8::is_ascii_chars_encode_utf8(text);
}

/// Form encoding keeps a plain text as it is.
pub proof fn lemma_plain_text_is_kept(text: Seq<char>)
    requires
        is_plain(text),
    ensures
        form_encoded(text) == text,
{
    assert(vstd::utf8::is_ascii_chars(text)) by {
        assert forall|i: int| 0 <= i < text.len() implies '\0' <= #[trigger] text[i] <= '\u{7f}' by {
            assert(is_plain_char(text[i]));
            lemma_no_char_is_below_nul(text[i]);
        }
    }
    vstd::utf8::is_ascii_chars_encode_utf8(text);
    let bytes = encode_utf8(text);
    assert forall|i: int| 0 <= i < bytes.len() implies stays_as_is(#[trigger] bytes[i]) by {
        assert(is_plain_char(text[i]));
        assert(text[i] as u8 == bytes[i]);
    }
    lemma_kept_bytes(bytes);
    assert forall|i: int| 0 <= i < text.len() implies form_encoded(text)[i] == text[i] by {
        assert(is_plain_char(text[i]));
        assert(text[i] as u8 == bytes[i]);
        assert(encoded_bytes(bytes)[i] == bytes[i] as char);
    }
    assert(form_encoded(text) =~= text);
}

/// Every token of the shape [`is_state_token`] is plain.
pub proof fn lemma_state_token_is_plain(token: Seq<char>)
    requires
        is_state_token(token),
    ensures
        is_plain(token),
        token.len() > 0,
{
    assert forall|i: int| 0 <= i < token.len() implies is_plain_char(#[trigger] token[i]) by {
        assert(is_base64url(token[i]));
    }
}

/// A piece of a piece is a piece of the whole.
pub proof fn lemma_occurs_in_is_transitive(text: Seq<char>, part: Seq<char>, piece: Seq<char>)
    requires
        occurs_in(text, part),
        occurs_in(part, piece),
    ensures
        occurs_in(text, piece),
{
    let outer = choose|at: int| stands_at(text, part, at);
    let inner = choose|at: int| stands_at(part, piece, at);
    assert(text.subrange(outer + inner, outer + inner + piece.len()) =~= text.subrange(
        outer,
        outer + part.len(),
    ).subrange(inner, inner + piece.len()));
    assert(stands_at(text, piece, outer + inner));
}

/// A serialized query holds each of its pairs.
pub proof fn lemma_serialized_holds_each_pair(pairs: Seq<(Seq<char>, Seq<char>)>, i: int)
    requires
        0 <= i < pairs.len(),
    ensures
        occurs_in(serialized(pairs), form_pair(pairs[i])),
    decreases pairs.len(),
{
    let whole = serialized(pairs);
    let piece = form_pair(pairs[i]);
    if pairs.len() == 1 {
        assert(whole.subrange(0, whole.len() as int) =~= whole);
        assert(stands_at(whole, piece, 0));
    } else if i == pairs.len() - 1 {
        let at = whole.len() - piece.len();
        assert(whole.subrange(at, at + piece.len()) =~= piece);
        assert(stands_at(whole, piece, at));
    } else {
        let front = serialized(pairs.drop_last());
        lemma_serialized_holds_each_pair(pairs.drop_last(), i);
        assert(pairs.drop_last()[i] == pairs[i]);
        assert(whole.subrange(0, front.len() as int) =~= front);
        assert(stands_at(whole, front, 0));
        lemma_occurs_in_is_transitive(whole, front, piece);
    }
}

/// A URL in the frame of an endpoint ends its query with the pairs that
/// were framed.
pub proof fn lemma_framed_url_carries_its_query(
    url: Seq<char>,
    frame: (Seq<char>, Seq<char>),
    query: Seq<char>,
)
    requires
        is_framed(url, frame, query),
    ensures
        carries_query(url, query),
{
    let at = frame.0.len() as int;
    assert(url.subrange(at, at + query.len()) =~= query);
    assert(closes_query_at(url, query, at));
}

/// Two redirects for one configuration differ in nothing but the
/// anti-forgery token: the same front and back hold the pairs of each, and
/// with one token the two are one URL.
pub proof fn lemma_redirects_differ_only_in_state(
    first: Redirect,
    second: Redirect,
    config: ClientConfigView,
)
    requires
        is_redirect_for(first, config, first.state@),
        is_redirect_for(second, config, second.state@),
    ensures
        first.status == second.status,
        exists|front: Seq<char>, back: Seq<char>|
            {
                &&& first.location@ == front + serialized(
                    authorize_pairs(config.client_id, first.state@, config.redirect_url, SCOPE@),
                ) + back
                &&& second.location@ == front + serialized(
                    authorize_pairs(config.client_id, second.state@, config.redirect_url, SCOPE@),
                ) + back
            },
        first.state@ == second.state@ ==> first.location@ == second.location@,
{
    let frame = authorize_frame(config.auth_url);
    assert(first.location@ == frame.0 + serialized(
        authorize_pairs(config.client_id, first.state@, config.redirect_url, SCOPE@),
    ) + frame.1);
    assert(second.location@ == frame.0 + serialized(
        authorize_pairs(config.client_id, second.state@, config.redirect_url, SCOPE@),
    ) + frame.1);
}

/// The URL of a redirect names the login it was made for: somewhere in it
/// stand `client_id=`, `redirect_uri=` and `state=`, each followed by the
/// form encoding of the configured client id, of the configured redirect
/// URL, and of the anti-forgery token. A fresh token is not empty and
/// stands there as it is, and so does a client id that is a plain text.
pub proof fn lemma_redirect_names_the_login(
    redirect: Redirect,
    config: ClientConfigView,
    state: Seq<char>,
)
    requires
        is_redirect_for(redirect, config, state),
    ensures
        names_the_login(redirect.location@, config.client_id, config.redirect_url, state),
        is_plain(config.client_id) ==> occurs_in(
            redirect.location@,
            "client_id="@ + config.client_id,
        ),
        is_state_token(state) ==> state.len() > 0 && occurs_in(
            redirect.location@,
            "state="@ + state,
        ),
{
    let url = redirect.location@;
    let pairs = authorize_pairs(config.client_id, state, config.redirect_url, SCOPE@);
    let query = serialized(pairs);
    lemma_framed_url_carries_its_query(url, authorize_frame(config.auth_url), query);
    let at = choose|at: int| closes_query_at(url, query, at);
    assert(stands_at(url, query, at));
    lemma_names_are_plain();
    lemma_plain_text_is_kept("client_id"@);
    lemma_plain_text_is_kept("redirect_uri"@);
    lemma_plain_text_is_kept("state"@);
    reveal_strlit("client_id=");
    reveal_strlit("redirect_uri=");
    reveal_strlit("state=");
    reveal_strlit("client_id");
    reveal_strlit("redirect_uri");
    reveal_strlit("state");
    assert("client_id="@ =~= "client_id"@ + seq!['=']);
    assert("redirect_uri="@ =~= "redirect_uri"@ + seq!['=']);
    assert("state="@ =~= "state"@ + seq!['=']);
    lemma_serialized_holds_each_pair(pairs, 1);
    lemma_serialized_holds_each_pair(pairs, 2);
    lemma_serialized_holds_each_pair(pairs, 3);
    lemma_occurs_in_is_transitive(url, query, form_pair(pairs[1]));
    lemma_occurs_in_is_transitive(url, query, form_pair(pairs[2]));
    lemma_occurs_in_is_transitive(url, query, form_pair(pairs[3]));
    if is_plain(config.client_id) {
        lemma_plain_text_is_kept(config.client_id);
    }
    if is_state_token(state) {
        lemma_state_token_is_plain(state);
        lemma_plain_text_is_kept(state);
    }
}

/// The three names that the law above speaks of are plain texts.
proof fn lemma_names_are_plain()
    ensures
        is_plain("client_id"@),
        is_plain("redirect_uri"@),
        is_plain("state"@),
{
    reveal_strlit("client_id");
    reveal_strlit("redirect_uri");
    reveal_strlit("state");
}

} // verus!
