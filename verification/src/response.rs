//! The HTTP response type and the JSON response builder.
//!
//! A response is a status code plus a JSON body of the shape
//! `{"message":"<text>"}`. The builder escapes the message so that the body
//! is always syntactically valid JSON, and a fixed fallback response stands
//! ready for the case in which building a response failed.

use vstd::prelude::*;

verus! {

/// An HTTP response: a status code and a JSON body.
#[derive(Clone, Debug, PartialEq, Eq)]
pub struct HttpResponse {
    pub status: u16,
    pub body: String,
}

/// A failure of the response-building step: the message could not be
/// serialized into a JSON body.
#[derive(Clone, Debug, PartialEq, Eq)]
pub struct SerializationFailure {
    pub description: String,
}

/// The status codes this layer itself assigns. An aborting handler may embed
/// any status of its own choosing; those are not constrained here.
pub open spec fn valid_status(s: int) -> bool {
    s == 400 || s == 401 || s == 404 || s == 422 || s == 500
}

/// The lower-case hexadecimal digit with value `n`.
pub open spec fn hex_digit(n: int) -> char {
    if n == 0 {
        '0'
    } else if n == 1 {
        '1'
    } else if n == 2 {
        '2'
    } else if n == 3 {
        '3'
    } else if n == 4 {
        '4'
    } else if n == 5 {
        '5'
    } else if n == 6 {
        '6'
    } else if n == 7 {
        '7'
    } else if n == 8 {
        '8'
    } else if n == 9 {
        '9'
    } else if n == 10 {
        'a'
    } else if n == 11 {
        'b'
    } else if n == 12 {
        'c'
    } else if n == 13 {
        'd'
    } else if n == 14 {
        'e'
    } else {
        'f'
    }
}

/// How a single character appears inside a JSON string literal: quote,
/// backslash and control characters are escaped, every other character
/// stands for itself.
pub open spec fn escaped_char(c: char) -> Seq<char> {
    if c == '"' {
        "\\\""@
    } else if c == '\\' {
        "\\\\"@
    } else if c == '\n' {
        "\\n"@
    } else if c == '\r' {
        "\\r"@
    } else if c == '\t' {
        "\\t"@
    } else if (c as u32) < 0x20 {
        "\\u00"@ + seq![hex_digit(((c as u32) / 16) as int), hex_digit(((c as u32) % 16) as int)]
    } else {
        seq![c]
    }
}

/// A character sequence escaped for inclusion in a JSON string literal.
pub open spec fn escaped(s: Seq<char>) -> Seq<char>
    decreases s.len(),
{
    if s.len() == 0 {
        Seq::empty()
    } else {
        escaped(s.drop_last()) + escaped_char(s.last())
    }
}

/// The JSON body carrying `message`: `{"message":"<escaped message>"}`.
pub open spec fn json_body(message: Seq<char>) -> Seq<char> {
    "{\"message\":\""@ + escaped(message) + "\"}"@
}

/// Relies on `String::push`: appends exactly the one character.
pub assume_specification[ String::push ](s: &mut String, c: char)
    ensures
        final(s)@ == old(s)@.push(c),
;

/// The lower-case hexadecimal digit with value `n`, as executable code.
fn hex_digit_char(n: u8) -> (c: char)
    requires
        n < 16,
    ensures
        c == hex_digit(n as int),
{
    match n {
        0 => '0',
        1 => '1',
        2 => '2',
        3 => '3',
        4 => '4',
        5 => '5',
        6 => '6',
        7 => '7',
        8 => '8',
        9 => '9',
        10 => 'a',
        11 => 'b',
        12 => 'c',
        13 => 'd',
        14 => 'e',
        _ => 'f',
    }
}

/// Appends the JSON-escaped form of `c` to `out`.
fn append_escaped(out: &mut String, c: char)
    ensures
        final(out)@ == old(out)@ + escaped_char(c),
{
    if c == '"' {
        out.append("\\\"");
    } else if c == '\\' {
        out.append("\\\\");
    } else if c == '\n' {
        out.append("\\n");
    } else if c == '\r' {
        out.append("\\r");
    } else if c == '\t' {
        out.append("\\t");
    } else if (c as u32) < 0x20 {
        let n = c as u32;
        out.append("\\u00");
        out.push(hex_digit_char((n / 16) as u8));
        out.push(hex_digit_char((n % 16) as u8));
        proof {
            assert(out@ =~= old(out)@ + escaped_char(c));
        }
    } else {
        out.push(c);
        proof {
            assert(out@ =~= old(out)@ + escaped_char(c));
        }
    }
}

/// Builds the JSON response for `status` and `message`; the body is exactly
/// `{"message":"<escaped message>"}`. This construction cannot fail.
pub fn build_json_response(status: u16, message: &str) -> (resp: HttpResponse)
    ensures
        resp.status == status,
        resp.body@ == json_body(message@),
{
    let mut body = "{\"message\":\"".to_owned();
    let len = message.unicode_len();
    let mut i: usize = 0;
    proof {
        assert(message@.take(0) =~= Seq::<char>::empty());
        assert(body@ =~= "{\"message\":\""@ + escaped(message@.take(0)));
    }
    while i < len
        invariant
            i <= len,
            len == message@.len(),
            body@ == "{\"message\":\""@ + escaped(message@.take(i as int)),
        decreases len - i,
    {
        let c = message.get_char(i);
        append_escaped(&mut body, c);
        proof {
            assert(message@.take(i as int + 1).drop_last() =~= message@.take(i as int));
            assert(message@.take(i as int + 1).last() == message@[i as int]);
            assert(body@ =~= "{\"message\":\""@ + escaped(message@.take(i as int + 1)));
        }
        i = i + 1;
    }
    proof {
        assert(message@.take(len as int) =~= message@);
    }
    body.append("\"}");
    HttpResponse { status, body }
}

/// The response-building collaborator of the dispatcher: builds the JSON
/// response for `status` and `message`. Serializing a plain message cannot
/// fail, so the result is always `Ok`; the `Result` is the interface the
/// dispatcher is written against.
pub fn json_response(status: u16, message: &str) -> (r: Result<HttpResponse, SerializationFailure>)
    ensures
        r matches Ok(resp) && resp.status == status && resp.body@ == json_body(message@),
{
    Ok(build_json_response(status, message))
}

/// The message of the last-resort response.
pub open spec fn fallback_message() -> Seq<char> {
    "error handling request"@
}

/// The last-resort response: status 500 with a fixed, statically valid JSON
/// body. Used when building the preferred response reported a failure, so
/// that the client is never left without a response.
pub fn fallback_response() -> (resp: HttpResponse)
    ensures
        resp.status == 500,
        resp.body@ == json_body(fallback_message()),
{
    build_json_response(500, "error handling request")
}

/// Shields the caller from a response-building failure: a built response is
/// returned as it is, a failure is replaced by the fixed fallback response,
/// never propagated.
pub fn respond_or_fallback(result: Result<HttpResponse, SerializationFailure>) -> (resp: HttpResponse)
    ensures
        result matches Ok(built) ==> resp.status == built.status && resp.body@ == built.body@,
        result is Err ==> resp.status == 500 && resp.body@ == json_body(fallback_message()),
{
    match result {
        Ok(built) => built,
        Err(_) => fallback_response(),
    }
}

/// The JSON body is never empty, whatever the message.
pub proof fn lemma_json_body_nonempty(message: Seq<char>)
    ensures
        json_body(message).len() > 0,
{
    reveal_strlit("{\"message\":\"");
}

} // verus!
