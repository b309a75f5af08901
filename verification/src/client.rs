//! Control-plane response handling: URL assembly, base-URL normalization,
//! and the interpretation of a response's status and body. The HTTP
//! transport itself lives outside the library and hands the status and body
//! text in.

use vstd::prelude::*;
use vstd::string::*;
use crate::errors::OrbitError;
use crate::pull::{json_accepts, json_parse, json_error_message, json_null, parsed_json,
    string_fields, value_str_field};

verus! {

/// The sequence with every trailing '/' removed.
pub open spec fn without_trailing_slashes(s: Seq<char>) -> Seq<char>
    decreases s.len(),
{
    if s.len() > 0 && s[s.len() - 1] == '/' {
        without_trailing_slashes(s.drop_last())
    } else {
        s
    }
}

proof fn lemma_without_trailing_slashes_at(s: Seq<char>, b: int)
    requires
        0 <= b <= s.len(),
        forall|j: int| b <= j < s.len() ==> s[j] == '/',
        b > 0 ==> s[b - 1] != '/',
    ensures
        without_trailing_slashes(s) == s.subrange(0, b),
    decreases s.len() - b,
{
    if b == s.len() {
        assert(s.subrange(0, b) =~= s);
    } else {
        assert(s[s.len() - 1] == '/');
        assert(s.drop_last() =~= s.subrange(0, s.len() - 1));
        lemma_without_trailing_slashes_at(s.drop_last(), b);
    }
}

/// A base URL with any trailing '/' characters removed.
pub fn normalized_base_url(u: &str) -> (r: String)
    ensures
        r@ == without_trailing_slashes(u@),
{
    let len = u.unicode_len();
    let mut b: usize = len;
    while b > 0 && u.get_char(b - 1) == '/'
        invariant
            len == u@.len(),
            0 <= b <= len,
            forall|j: int| b <= j < len ==> u@[j] == '/',
        decreases b,
    {
        b -= 1;
    }
    proof {
        lemma_without_trailing_slashes_at(u@, b as int);
    }
    u.substring_char(0, b).to_owned()
}

/// The full URL of a request: the normalized base followed by the path.
pub fn request_url(base: &str, path: &str) -> (r: String)
    ensures
        r@ == base@ + path@,
{
    let mut out = base.to_owned();
    out.append(path);
    out
}

/// The message an error response carries: the text under the body's
/// "error" key when the body is JSON with a string there, else the body
/// text itself.
pub open spec fn error_body_text(body: Seq<char>) -> Seq<char> {
    if json_accepts(body) && string_fields(parsed_json(body)).contains_key("error"@) {
        string_fields(parsed_json(body))["error"@]
    } else {
        body
    }
}

/// Extracts the message of an error response from its body.
pub fn response_error_message(body: &str) -> (r: String)
    ensures
        r@ == error_body_text(body@),
{
    match json_parse(body) {
        Ok(v) => match value_str_field(&v, "error") {
            Some(s) => s,
            None => body.to_owned(),
        },
        Err(_) => body.to_owned(),
    }
}

/// Interprets a control-plane response from its status code and body text:
/// a status of 400 or above is an API error carrying that status and the
/// body's error message; an empty body is the null value; any other body
/// must parse as JSON, else the response is a JSON error.
pub fn interpret_response(status: u16, body: &str) -> (r: Result<serde_json::Value, OrbitError>)
    ensures
        status >= 400 ==> (r matches Err(OrbitError::Api { status: s, message }) && s == status
            && message@ == error_body_text(body@)),
        status < 400 && body@.len() == 0 ==> r is Ok,
        status < 400 && body@.len() > 0 ==> (r is Ok <==> json_accepts(body@)),
        status < 400 && body@.len() > 0 && json_accepts(body@) ==> (r matches Ok(v) && v
            == parsed_json(body@)),
        status < 400 && body@.len() > 0 && !json_accepts(body@) ==> r matches Err(
            OrbitError::Json(_),
        ),
{
    if status >= 400 {
        let message = response_error_message(body);
        Err(OrbitError::api(status, message))
    } else if body.is_empty() {
        Ok(json_null())
    } else {
        match json_parse(body) {
            Ok(v) => Ok(v),
            Err(e) => Err(OrbitError::Json(json_error_message(&e))),
        }
    }
}

} // verus!
