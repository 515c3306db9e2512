//! Outcomes of a verification and their HTTP status and JSON body.

use vstd::prelude::*;
use vstd::string::*;
use crate::fingerprint::hex_digit;

verus! {

/// Why a verification did not succeed.
#[derive(Clone, Copy, Debug, PartialEq, Eq, Structural)]
pub enum AuthError {
    /// The `Authorization` header is absent.
    MissingHeader,
    /// The header does not start with the `Bearer ` scheme marker.
    MalformedCredential,
    /// The credential is well formed but matches no record.
    InvalidToken,
    /// The store could not be queried.
    StorageFailure,
}

/// An HTTP response: a status code and a JSON body.
pub struct HttpResponse {
    pub status: u16,
    pub body: String,
}

/// What a response holds, as mathematical values.
pub struct ResponseView {
    pub status: u16,
    pub body: Seq<char>,
}

impl View for HttpResponse {
    type V = ResponseView;

    open spec fn view(&self) -> ResponseView {
        ResponseView { status: self.status, body: self.body@ }
    }
}

/// The HTTP status that reports an error.
pub open spec fn status_of(e: AuthError) -> u16 {
    match e {
        AuthError::MissingHeader => 400,
        AuthError::MalformedCredential => 400,
        AuthError::InvalidToken => 401,
        AuthError::StorageFailure => 500,
    }
}

/// The client-facing message of an error.
pub open spec fn message_of(e: AuthError) -> Seq<char> {
    match e {
        AuthError::MissingHeader => "Missing request header \"Authorization\""@,
        AuthError::MalformedCredential => "Authorization header must begin with \"Bearer\""@,
        AuthError::InvalidToken => "Invalid token"@,
        AuthError::StorageFailure => "Internal Server Error"@,
    }
}

/// One character as it stands inside a JSON string literal.
pub open spec fn escape_char(c: char) -> Seq<char> {
    if c == '"' {
        seq!['\\', '"']
    } else if c == '\\' {
        seq!['\\', '\\']
    } else if c == '\n' {
        seq!['\\', 'n']
    } else if c == '\r' {
        seq!['\\', 'r']
    } else if c == '\t' {
        seq!['\\', 't']
    } else if (c as u32) < 0x20 {
        seq!['\\', 'u', '0', '0', hex_digit((c as u32 / 16) as u8), hex_digit((c as u32 % 16) as u8)]
    } else {
        seq![c]
    }
}

/// The contents of a JSON string literal that denotes `s`.
pub open spec fn json_escaped(s: Seq<char>) -> Seq<char>
    decreases s.len(),
{
    if s.len() == 0 {
        Seq::empty()
    } else {
        json_escaped(s.drop_last()) + escape_char(s.last())
    }
}

/// The body `{"error":"<text>"}`.
pub open spec fn error_body(text: Seq<char>) -> Seq<char> {
    "{\"error\":\""@ + json_escaped(text) + "\"}"@
}

/// The body `{"user_id":"<id>"}`.
pub open spec fn success_body(user_id: Seq<char>) -> Seq<char> {
    "{\"user_id\":\""@ + json_escaped(user_id) + "\"}"@
}

/// The response that reports an error.
pub open spec fn error_reply(e: AuthError) -> ResponseView {
    ResponseView { status: status_of(e), body: error_body(message_of(e)) }
}

/// The response that reports the identity of a verified user.
pub open spec fn success_reply(user_id: Seq<char>) -> ResponseView {
    ResponseView { status: 200, body: success_body(user_id) }
}

/// Relies on `String::push`: appends one character at the end.
#[verifier::external_body]
fn push_char(s: &mut String, c: char)
    ensures
        final(s)@ == old(s)@.push(c),
{
    s.push(c)
}

fn hex_digit_char(n: u8) -> (r: char)
    requires
        n < 16,
    ensures
        r == hex_digit(n),
{
    if n < 10 {
        (n + 48) as char
    } else {
        (n + 87) as char
    }
}

/// Appends to `out` the JSON string contents that denote `text`.
pub fn push_json_escaped(out: &mut String, text: &str)
    ensures
        final(out)@ == old(out)@ + json_escaped(text@),
{
    let ghost start = out@;
    for c in it: text.chars()
        invariant
            it.seq() == text@,
            out@ == start + json_escaped(text@.take(it.index() as int)),
    {
        let ghost done = text@.take(it.index() as int);
        let ghost before = out@;
        assert(c == text@[it.index() as int]);
        assert(text@.take(it.index() + 1).drop_last() =~= done);
        assert(text@.take(it.index() + 1).last() == c);
        if c == '"' {
            out.append("\\\"");
            proof { reveal_strlit("\\\""); }
        } else if c == '\\' {
            out.append("\\\\");
            proof { reveal_strlit("\\\\"); }
        } else if c == '\n' {
            out.append("\\n");
            proof { reveal_strlit("\\n"); }
        } else if c == '\r' {
            out.append("\\r");
            proof { reveal_strlit("\\r"); }
        } else if c == '\t' {
            out.append("\\t");
            proof { reveal_strlit("\\t"); }
        } else if (c as u32) < 0x20 {
            out.append("\\u00");
            proof { reveal_strlit("\\u00"); }
            push_char(out, hex_digit_char((c as u32 / 16) as u8));
            push_char(out, hex_digit_char((c as u32 % 16) as u8));
        } else {
            push_char(out, c);
        }
        assert(out@ =~= before + escape_char(c));
        assert(out@ =~= start + json_escaped(text@.take(it.index() + 1)));
    }
    assert(text@.take(text@.len() as int) =~= text@);
}

/// The JSON body `{"error":"<text>"}`, with `text` escaped.
pub fn error_json(text: &str) -> (r: String)
    ensures
        r@ == error_body(text@),
{
    let mut out = String::new();
    out.append("{\"error\":\"");
    push_json_escaped(&mut out, text);
    out.append("\"}");
    out
}

/// The JSON body `{"user_id":"<id>"}`, with `user_id` escaped.
pub fn user_id_json(user_id: &str) -> (r: String)
    ensures
        r@ == success_body(user_id@),
{
    let mut out = String::new();
    out.append("{\"user_id\":\"");
    push_json_escaped(&mut out, user_id);
    out.append("\"}");
    out
}

/// The client-facing message of an error.
pub fn message(e: AuthError) -> (r: &'static str)
    ensures
        r@ == message_of(e),
{
    match e {
        AuthError::MissingHeader => "Missing request header \"Authorization\"",
        AuthError::MalformedCredential => "Authorization header must begin with \"Bearer\"",
        AuthError::InvalidToken => "Invalid token",
        AuthError::StorageFailure => "Internal Server Error",
    }
}

/// The HTTP status that reports an error.
pub fn status_code(e: AuthError) -> (r: u16)
    ensures
        r == status_of(e),
{
    match e {
        AuthError::MissingHeader => 400,
        AuthError::MalformedCredential => 400,
        AuthError::InvalidToken => 401,
        AuthError::StorageFailure => 500,
    }
}

/// The response that reports an error: its status, and its message as
/// `{"error":"<message>"}`. A storage failure is reported without detail.
pub fn error_response(e: AuthError) -> (r: HttpResponse)
    ensures
        r@ == error_reply(e),
{
    HttpResponse { status: status_code(e), body: error_json(message(e)) }
}

/// The response `200` with body `{"user_id":"<id>"}`.
pub fn success_response(user_id: &str) -> (r: HttpResponse)
    ensures
        r@ == success_reply(user_id@),
{
    HttpResponse { status: 200, body: user_id_json(user_id) }
}

} // verus!
