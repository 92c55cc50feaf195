//! The visitor's profile, and how it is read out of the provider's answer.
//!
//! The answer is a JSON text. `serde_json` parses it; which members a
//! profile needs, and what each must hold, is decided here.

use vstd::prelude::*;
use crate::config::text_of;
use crate::error::LoginError;

verus! {

/// What the provider tells about the visitor.
#[derive(Clone, Debug, PartialEq, Eq)]
pub struct User {
    pub id: String,
    pub avatar: Option<String>,
    pub username: String,
    pub discriminator: String,
    pub email: Option<String>,
}

/// A profile as texts.
pub struct UserView {
    pub id: Seq<char>,
    pub avatar: Option<Seq<char>>,
    pub username: Seq<char>,
    pub discriminator: Seq<char>,
    pub email: Option<Seq<char>>,
}

impl View for User {
    type V = UserView;

    open spec fn view(&self) -> UserView {
        UserView {
            id: self.id@,
            avatar: text_of(self.avatar),
            username: self.username@,
            discriminator: self.discriminator@,
            email: text_of(self.email),
        }
    }
}

/// The value of a member of a JSON object, as far as a profile depends on
/// it: its kind and, for a string, its text.
#[derive(Clone, Debug, PartialEq, Eq)]
pub enum JsonValue {
    Null,
    Bool,
    Number,
    Text(String),
    Array,
    Object,
}

/// A [`JsonValue`] with its text as a sequence.
pub enum JsonValueView {
    Null,
    Bool,
    Number,
    Text(Seq<char>),
    Array,
    Object,
}

impl View for JsonValue {
    type V = JsonValueView;

    open spec fn view(&self) -> JsonValueView {
        match self {
            JsonValue::Null => JsonValueView::Null,
            JsonValue::Bool => JsonValueView::Bool,
            JsonValue::Number => JsonValueView::Number,
            JsonValue::Text(text) => JsonValueView::Text(text@),
            JsonValue::Array => JsonValueView::Array,
            JsonValue::Object => JsonValueView::Object,
        }
    }
}

/// One member of a JSON object.
#[derive(Clone, Debug, PartialEq, Eq)]
pub struct Member {
    pub name: String,
    pub value: JsonValue,
}

/// A [`Member`] with its name as a sequence.
pub struct MemberView {
    pub name: Seq<char>,
    pub value: JsonValueView,
}

impl View for Member {
    type V = MemberView;

    open spec fn view(&self) -> MemberView {
        MemberView { name: self.name@, value: self.value@ }
    }
}

/// The members of a list, each by its view.
pub open spec fn members_view(members: Seq<Member>) -> Seq<MemberView> {
    Seq::new(members.len(), |i: int| members[i]@)
}

// ----- which members make a profile --------------------------------------

/// The value of the first member called `name`, if there is one.
pub open spec fn lookup(members: Seq<MemberView>, name: Seq<char>) -> Option<JsonValueView>
    decreases members.len(),
{
    if members.len() == 0 {
        None
    } else if members[0].name == name {
        Some(members[0].value)
    } else {
        lookup(members.drop_first(), name)
    }
}

/// The text of a member that a profile cannot do without: the member must
/// be there and hold a string.
pub open spec fn required_text(members: Seq<MemberView>, name: Seq<char>) -> Option<Seq<char>> {
    match lookup(members, name) {
        Some(JsonValueView::Text(text)) => Some(text),
        _ => None,
    }
}

/// The text of a member that a profile may lack: absent or `null` it gives
/// no text, which is in order; present, it must hold a string.
pub open spec fn optional_text(members: Seq<MemberView>, name: Seq<char>) -> Option<
    Option<Seq<char>>,
> {
    match lookup(members, name) {
        None => Some(None),
        Some(JsonValueView::Null) => Some(None),
        Some(JsonValueView::Text(text)) => Some(Some(text)),
        _ => None,
    }
}

/// The profile that the members of an object make, if they make one: `id`,
/// `username` and `discriminator` are required, `avatar` and `email` are
/// optional, and members of other names are passed over.
pub open spec fn profile_of(members: Seq<MemberView>) -> Option<UserView> {
    let id = required_text(members, "id"@);
    let avatar = optional_text(members, "avatar"@);
    let username = required_text(members, "username"@);
    let discriminator = required_text(members, "discriminator"@);
    let email = optional_text(members, "email"@);
    if id is Some && avatar is Some && username is Some && discriminator is Some && email is Some {
        Some(
            UserView {
                id: id->0,
                avatar: avatar->0,
                username: username->0,
                discriminator: discriminator->0,
                email: email->0,
            },
        )
    } else {
        None
    }
}

/// Finds the first member called `name`.
fn find<'a>(members: &'a Vec<Member>, name: &str) -> (found: Option<&'a JsonValue>)
    ensures
        match lookup(members_view(members@), name@) {
            Some(value) => found matches Some(v) && v@ == value,
            None => found is None,
        },
{
    let wanted = name.to_owned();
    let ghost all = members_view(members@);
    let mut i: usize = 0;
    proof {
        assert(all.skip(0) =~= all);
    }
    while i < members.len()
        invariant
            i <= members.len(),
            all == members_view(members@),
            wanted@ == name@,
            lookup(all, name@) == lookup(all.skip(i as int), name@),
        decreases members.len() - i,
    {
        proof {
            assert(all.skip(i as int)[0] == members[i as int]@);
            assert(all.skip(i as int).drop_first() =~= all.skip(i + 1));
        }
        if members[i].name == wanted {
            return Some(&members[i].value);
        }
        i += 1;
    }
    proof {
        assert(all.skip(i as int).len() == 0);
    }
    None
}

/// Reads a required member.
fn required(members: &Vec<Member>, name: &str) -> (text: Option<String>)
    ensures
        text_of(text) == required_text(members_view(members@), name@),
{
    match find(members, name) {
        Some(JsonValue::Text(text)) => Some(text.clone()),
        _ => None,
    }
}

/// Reads an optional member.
fn optional(members: &Vec<Member>, name: &str) -> (text: Option<Option<String>>)
    ensures
        match optional_text(members_view(members@), name@) {
            Some(found) => text matches Some(t) && text_of(t) == found,
            None => text is None,
        },
{
    match find(members, name) {
        None => Some(None),
        Some(JsonValue::Null) => Some(None),
        Some(JsonValue::Text(text)) => Some(Some(text.clone())),
        _ => None,
    }
}

impl User {
    /// Makes a profile of the members of a JSON object.
    ///
    /// Fails where [`profile_of`] finds none: a required member is absent or
    /// holds no string, or an optional member holds something other than a
    /// string or `null`.
    pub fn from_members(members: &Vec<Member>) -> (r: Result<User, LoginError>)
        ensures
            match profile_of(members_view(members@)) {
                Some(profile) => r matches Ok(user) && user@ == profile,
                None => r == Err::<User, LoginError>(LoginError::Deserialization),
            },
    {
        let id = match required(members, "id") {
            Some(text) => text,
            None => return Err(LoginError::Deserialization),
        };
        let avatar = match optional(members, "avatar") {
            Some(text) => text,
            None => return Err(LoginError::Deserialization),
        };
        let username = match required(members, "username") {
            Some(text) => text,
            None => return Err(LoginError::Deserialization),
        };
        let discriminator = match required(members, "discriminator") {
            Some(text) => text,
            None => return Err(LoginError::Deserialization),
        };
        let email = match optional(members, "email") {
            Some(text) => text,
            None => return Err(LoginError::Deserialization),
        };
        Ok(User { id, avatar, username, discriminator, email })
    }
}

// ----- reading the answer -------------------------------------------------

/// The members of the JSON object that `text` is, as `serde_json` reads
/// them, or `None` where `text` is no JSON object.
pub uninterp spec fn json_object(text: Seq<char>) -> Option<Seq<MemberView>>;

/// Parses a text with `serde_json::from_str` as a `serde_json::Map`, and
/// hands out its members, each value by its kind.
///
/// Trusted: the outcome is a function of the text alone, named
/// [`json_object`]; nothing is claimed of what it is for a given text.
/// The map keeps one value for a name: where the text repeats a name, the
/// members handed out hold it once, with the value that came last.
#[verifier::external_body]
fn parse_object(text: &str) -> (members: Option<Vec<Member>>)
    ensures
        match json_object(text@) {
            Some(object) => members matches Some(list) && members_view(list@) == object,
            None => members is None,
        },
{
    match serde_json::from_str::<serde_json::Map<String, serde_json::Value>>(text) {
        Err(_) => None,
        Ok(object) => Some(object.into_iter().map(|(name, value)| Member { name, value: match value {
            serde_json::Value::Null => JsonValue::Null,
            serde_json::Value::Bool(_) => JsonValue::Bool,
            serde_json::Value::Number(_) => JsonValue::Number,
            serde_json::Value::String(text) => JsonValue::Text(text),
            serde_json::Value::Array(_) => JsonValue::Array,
            serde_json::Value::Object(_) => JsonValue::Object,
        } }).collect()),
    }
}

/// The profile that a response body holds, if it holds one.
pub open spec fn decoded(body: Seq<char>) -> Option<UserView> {
    match json_object(body) {
        Some(members) => profile_of(members),
        None => None,
    }
}

/// Reads the profile out of the body of the provider's answer.
///
/// Fails where the body is no JSON object, and where its members make no
/// profile (see [`User::from_members`]).
pub fn decode_profile(body: &str) -> (r: Result<User, LoginError>)
    ensures
        match decoded(body@) {
            Some(profile) => r matches Ok(user) && user@ == profile,
            None => r == Err::<User, LoginError>(LoginError::Deserialization),
        },
{
    match parse_object(body) {
        Some(members) => User::from_members(&members),
        None => Err(LoginError::Deserialization),
    }
}

} // verus!
