//! Frames on the wire: `{"code": <code>, "data": <payload>}` as JSON text.
use vstd::prelude::*;
use vstd::string::StringExecFns;

use crate::decimal::{code_text_value, decimal_text, digit_char, format_code, parse_code_text};
use crate::error::GamerError;

verus! {

/// An event code and its payload, as carried by one frame.
#[derive(Debug)]
pub struct WebsocketMessage {
    pub code: usize,
    pub data: String,
}

impl View for WebsocketMessage {
    type V = (usize, Seq<char>);

    open spec fn view(&self) -> (usize, Seq<char>) {
        (self.code, self.data@)
    }
}

/// The members of a JSON object, each as its key and its value's JSON text.
pub type Members = Seq<(Seq<char>, Seq<char>)>;

pub open spec fn members_view(v: Seq<(String, String)>) -> Members {
    v.map_values(|p: (String, String)| (p.0@, p.1@))
}

/// The members of the JSON object that serde_json reads from the text, or
/// `None` where the text is not one JSON object.
pub uninterp spec fn json_object_members(text: Seq<char>) -> Option<Members>;

/// The contents of the JSON string literal that serde_json reads from the
/// text, or `None` where the text is not one.
pub uninterp spec fn json_string_value(text: Seq<char>) -> Option<Seq<char>>;

/// The unsigned integer that serde_json reads from the text, or `None` where
/// the text is not one that fits a `u64`.
pub uninterp spec fn json_u64_value(text: Seq<char>) -> Option<u64>;

/// Relies on serde_json::from_str::<serde_json::Map<String, Value>>: it
/// succeeds exactly on text that holds one JSON object. Each member is handed
/// out as its key and the compact JSON text of its value.
#[verifier::external_body]
fn object_members(text: &str) -> (r: Option<Vec<(String, String)>>)
    ensures
        r matches Some(v) ==> json_object_members(text@) == Some(members_view(v@)),
        r is None ==> json_object_members(text@) is None,
{
    serde_json::from_str::<serde_json::Map<String, serde_json::Value>>(text).ok().map(
        |m| m.into_iter().map(|(k, v)| (k, v.to_string())).collect(),
    )
}

/// Relies on serde_json::from_str::<String>: the contents of a JSON string
/// literal.
#[verifier::external_body]
fn json_string(text: &str) -> (r: Option<String>)
    ensures
        r matches Some(s) ==> json_string_value(text@) == Some(s@),
        r is None ==> json_string_value(text@) is None,
{
    serde_json::from_str::<String>(text).ok()
}

/// Relies on serde_json::from_str::<u64>: a JSON number that is an unsigned
/// integer fitting a `u64`.
#[verifier::external_body]
fn json_u64(text: &str) -> (r: Option<u64>)
    ensures
        r == json_u64_value(text@),
{
    serde_json::from_str::<u64>(text).ok()
}

/// The value of the first member named `key`, from index `i` on.
pub open spec fn member_from(m: Members, key: Seq<char>, i: int) -> Option<Seq<char>>
    decreases m.len() - i,
{
    if i < 0 || i >= m.len() {
        None
    } else if m[i].0 == key {
        Some(m[i].1)
    } else {
        member_from(m, key, i + 1)
    }
}

/// The value of the member named `key`.
pub open spec fn member_of(m: Members, key: Seq<char>) -> Option<Seq<char>> {
    member_from(m, key, 0)
}

/// The code that a `code` member holds: a JSON string of decimal digits, or
/// a JSON unsigned integer, that fits a `usize`.
pub open spec fn code_of_member(t: Seq<char>) -> Result<usize, GamerError> {
    match json_string_value(t) {
        Some(s) => match code_text_value(s) {
            Some(v) => if v <= usize::MAX {
                Ok(v as usize)
            } else {
                Err(GamerError::InvalidCode)
            },
            None => Err(GamerError::InvalidCode),
        },
        None => match json_u64_value(t) {
            Some(n) => if n <= usize::MAX {
                Ok(n as usize)
            } else {
                Err(GamerError::InvalidCode)
            },
            None => Err(GamerError::InvalidCode),
        },
    }
}

/// The payload that a `data` member holds: a JSON string's contents, or any
/// other JSON value as its text.
pub open spec fn payload_of_member(t: Seq<char>) -> Seq<char> {
    match json_string_value(t) {
        Some(s) => s,
        None => t,
    }
}

/// The event that an object with these members carries, or why it carries
/// none. The code is checked before the payload.
pub open spec fn decode_members(m: Members) -> Result<(usize, Seq<char>), GamerError> {
    match member_of(m, "code"@) {
        None => Err(GamerError::MissingCode),
        Some(t) => match code_of_member(t) {
            Err(e) => Err(e),
            Ok(code) => match member_of(m, "data"@) {
                None => Err(GamerError::MissingData),
                Some(u) => Ok((code, payload_of_member(u))),
            },
        },
    }
}

/// The event that a frame's text carries: text that is not one JSON object is
/// a malformed frame.
pub open spec fn decode_text(text: Seq<char>) -> Result<(usize, Seq<char>), GamerError> {
    match json_object_members(text) {
        None => Err(GamerError::MalformedFrame),
        Some(m) => decode_members(m),
    }
}

pub open spec fn decoded_view(r: Result<WebsocketMessage, GamerError>) -> Result<(usize, Seq<char>), GamerError> {
    match r {
        Ok(m) => Ok(m@),
        Err(e) => Err(e),
    }
}

/// An object without a `code` member fails with `MissingCode`, even when it
/// has no `data` either; one with a usable code and no `data` member fails
/// with `MissingData`.
pub proof fn lemma_missing_members(m: Members)
    ensures
        member_of(m, "code"@) is None ==> decode_members(m) == Err::<(usize, Seq<char>), GamerError>(
            GamerError::MissingCode,
        ),
        member_of(m, "code"@) matches Some(t) ==> (code_of_member(t) is Ok && member_of(m, "data"@) is None
            ==> decode_members(m) == Err::<(usize, Seq<char>), GamerError>(GamerError::MissingData)),
{
}

/// The value of the first member named `key`.
fn find_member(members: &Vec<(String, String)>, key: &String) -> (r: Option<String>)
    ensures
        r matches Some(s) ==> member_of(members_view(members@), key@) == Some(s@),
        r is None ==> member_of(members_view(members@), key@) is None,
{
    let ghost m = members_view(members@);
    let mut i: usize = 0;
    while i < members.len()
        invariant
            0 <= i <= members.len(),
            m == members_view(members@),
            m.len() == members.len(),
            member_of(m, key@) == member_from(m, key@, i as int),
        decreases members.len() - i,
    {
        assert(m[i as int] == (members[i as int].0@, members[i as int].1@));
        if members[i].0 == *key {
            return Some(members[i].1.clone());
        }
        i = i + 1;
    }
    None
}

fn code_from_member(t: &str) -> (r: Result<usize, GamerError>)
    ensures
        r == code_of_member(t@),
{
    match json_string(t) {
        Some(s) => match parse_code_text(s.as_str()) {
            Some(v) => if v <= usize::MAX as u64 {
                Ok(v as usize)
            } else {
                Err(GamerError::InvalidCode)
            },
            None => Err(GamerError::InvalidCode),
        },
        None => match json_u64(t) {
            Some(n) => if n <= usize::MAX as u64 {
                Ok(n as usize)
            } else {
                Err(GamerError::InvalidCode)
            },
            None => Err(GamerError::InvalidCode),
        },
    }
}

/// Decodes frame text into an event.
pub fn decode(text: &str) -> (r: Result<WebsocketMessage, GamerError>)
    ensures
        decoded_view(r) == decode_text(text@),
{
    let members = match object_members(text) {
        None => return Err(GamerError::MalformedFrame),
        Some(m) => m,
    };
    let code_key = String::from_str("code");
    let code_text = match find_member(&members, &code_key) {
        None => return Err(GamerError::MissingCode),
        Some(t) => t,
    };
    let code = match code_from_member(code_text.as_str()) {
        Ok(c) => c,
        Err(e) => return Err(e),
    };
    let data_key = String::from_str("data");
    let data_text = match find_member(&members, &data_key) {
        None => return Err(GamerError::MissingData),
        Some(t) => t,
    };
    let data = match json_string(data_text.as_str()) {
        Some(s) => s,
        None => data_text,
    };
    Ok(WebsocketMessage { code, data })
}

pub open spec fn hex_digit(d: nat) -> char {
    if d < 10 {
        digit_char(d)
    } else if d == 10 {
        'a'
    } else if d == 11 {
        'b'
    } else if d == 12 {
        'c'
    } else if d == 13 {
        'd'
    } else if d == 14 {
        'e'
    } else {
        'f'
    }
}

/// How serde_json writes one character inside a JSON string: quote and
/// backslash escaped, the short escapes for backspace, tab, line feed, form
/// feed and carriage return, other control characters as `\u00XX`, and every
/// other character as it is.
pub open spec fn escaped_char(c: char) -> Seq<char> {
    if c == '"' {
        seq!['\\', '"']
    } else if c == '\\' {
        seq!['\\', '\\']
    } else if c == '\u{8}' {
        seq!['\\', 'b']
    } else if c == '\t' {
        seq!['\\', 't']
    } else if c == '\n' {
        seq!['\\', 'n']
    } else if c == '\u{c}' {
        seq!['\\', 'f']
    } else if c == '\r' {
        seq!['\\', 'r']
    } else if (c as nat) < 32 {
        seq!['\\', 'u', '0', '0', hex_digit(c as nat / 16), hex_digit(c as nat % 16)]
    } else {
        seq![c]
    }
}

pub open spec fn escaped_text(s: Seq<char>) -> Seq<char>
    decreases s.len(),
{
    if s.len() == 0 {
        Seq::empty()
    } else {
        escaped_text(s.drop_last()) + escaped_char(s.last())
    }
}

/// The JSON string literal for a text.
pub open spec fn json_quoted(s: Seq<char>) -> Seq<char> {
    seq!['"'] + escaped_text(s) + seq!['"']
}

/// Relies on serde_json's `Display` for `Value::String`: the text as a JSON
/// string literal, escaped as `format_escaped_str` does.
#[verifier::external_body]
fn quote_json(s: &str) -> (r: String)
    ensures
        r@ == json_quoted(s@),
{
    serde_json::Value::String(s.to_string()).to_string()
}

/// The frame text for an event: the code as a JSON string of decimal
/// digits, the payload as a JSON string.
pub open spec fn frame_text(code: usize, data: Seq<char>) -> Seq<char> {
    "{\"code\":\""@ + decimal_text(code as nat) + "\",\"data\":"@ + json_quoted(data) + "}"@
}

/// Encodes an event as frame text.
pub fn encode(code: usize, data: &str) -> (r: String)
    ensures
        r@ == frame_text(code, data@),
{
    let mut out = String::from_str("{\"code\":\"");
    let digits = format_code(code as u64);
    out.append(digits.as_str());
    out.append("\",\"data\":");
    let quoted = quote_json(data);
    out.append(quoted.as_str());
    out.append("}");
    out
}

/// Where serde_json reads back from `frame_text(code, data)` a `code` member
/// holding the string of the code's decimal digits and a `data` member
/// holding the string `data`, decoding that text gives `(code, data)`.
pub proof fn lemma_encoded_frame_decodes(code: usize, data: Seq<char>, m: Members, t: Seq<char>, u: Seq<char>)
    requires
        json_object_members(frame_text(code, data)) == Some(m),
        member_of(m, "code"@) == Some(t),
        json_string_value(t) == Some(decimal_text(code as nat)),
        member_of(m, "data"@) == Some(u),
        json_string_value(u) == Some(data),
    ensures
        decode_text(frame_text(code, data)) == Ok::<(usize, Seq<char>), GamerError>((code, data)),
{
    crate::decimal::lemma_code_text_round_trip(code as nat);
}

} // verus!
