//! The wire format: one JSON object per line, in both directions.
//!
//! A request is `{"jsonrpc":"2.0","id":I,"method":M,"params":P}`, where `I`
//! is the id in decimal, `M` the method name as a JSON string and `P` the
//! parameters as compact JSON. A response is a JSON object with an unsigned
//! `id` and a `result` or an `error`.

use vstd::prelude::*;
use vstd::string::*;
use crate::error::CallError;
use crate::json::{json_member, json_parse, json_prints, json_string, json_text, json_u64};

verus! {

/// The character that stands for a decimal digit.
pub open spec fn digit_char(digit: nat) -> char {
    if digit == 0 {
        '0'
    } else if digit == 1 {
        '1'
    } else if digit == 2 {
        '2'
    } else if digit == 3 {
        '3'
    } else if digit == 4 {
        '4'
    } else if digit == 5 {
        '5'
    } else if digit == 6 {
        '6'
    } else if digit == 7 {
        '7'
    } else if digit == 8 {
        '8'
    } else {
        '9'
    }
}

/// A number in decimal, without sign and without leading zeros.
pub open spec fn decimal(n: nat) -> Seq<char>
    decreases n,
{
    if n < 10 {
        seq![digit_char(n)]
    } else {
        decimal(n / 10).push(digit_char(n % 10))
    }
}

/// A text that fits on one line: it holds no line feed.
pub open spec fn single_line(text: Seq<char>) -> bool {
    forall|i: int| 0 <= i < text.len() ==> text[i] != '\n'
}

/// The request line for an id, a method name already printed as a JSON
/// string, and parameters already printed as JSON.
pub open spec fn request_line(id: u64, method_json: Seq<char>, params_json: Seq<char>) -> Seq<
    char,
> {
    "{\"jsonrpc\":\"2.0\",\"id\":"@ + decimal(id as nat) + ",\"method\":"@ + method_json
        + ",\"params\":"@ + params_json + "}"@
}

/// Whether a request with this method name and these parameters can be
/// printed: `serde_json` prints both.
pub open spec fn request_prints(method: Seq<char>, params: serde_json::Value) -> bool {
    json_prints(json_string(method)) && json_prints(params)
}

/// The request line for an id, a method name and parameters.
pub open spec fn request_for(id: u64, method: Seq<char>, params: serde_json::Value) -> Seq<char> {
    request_line(id, json_text(json_string(method)), json_text(params))
}

/// The one-character text of a decimal digit.
fn digit_text(digit: u64) -> (text: &'static str)
    requires
        digit < 10,
    ensures
        text@ == seq![digit_char(digit as nat)],
{
    proof {
        reveal_strlit("0");
        reveal_strlit("1");
        reveal_strlit("2");
        reveal_strlit("3");
        reveal_strlit("4");
        reveal_strlit("5");
        reveal_strlit("6");
        reveal_strlit("7");
        reveal_strlit("8");
        reveal_strlit("9");
    }
    if digit == 0 {
        "0"
    } else if digit == 1 {
        "1"
    } else if digit == 2 {
        "2"
    } else if digit == 3 {
        "3"
    } else if digit == 4 {
        "4"
    } else if digit == 5 {
        "5"
    } else if digit == 6 {
        "6"
    } else if digit == 7 {
        "7"
    } else if digit == 8 {
        "8"
    } else {
        "9"
    }
}

/// Appends a number in decimal to a text.
pub fn push_decimal(out: &mut String, n: u64)
    ensures
        final(out)@ == old(out)@ + decimal(n as nat),
    decreases n,
{
    if n >= 10 {
        push_decimal(out, n / 10);
    }
    out.append(digit_text(n % 10));
}

/// A decimal number fits on one line.
pub proof fn lemma_decimal_single_line(n: nat)
    ensures
        single_line(decimal(n)),
    decreases n,
{
    if n >= 10 {
        lemma_decimal_single_line(n / 10);
    }
}

/// A request fits on one line where the method name and the parameters do.
pub proof fn lemma_request_single_line(id: u64, method_json: Seq<char>, params_json: Seq<char>)
    requires
        single_line(method_json),
        single_line(params_json),
    ensures
        single_line(request_line(id, method_json, params_json)),
{
    reveal_strlit("{\"jsonrpc\":\"2.0\",\"id\":");
    reveal_strlit(",\"method\":");
    reveal_strlit(",\"params\":");
    reveal_strlit("}");
    lemma_decimal_single_line(id as nat);
}

/// Frames a request line from its three variable parts.
pub fn frame_request(id: u64, method_json: &str, params_json: &str) -> (line: String)
    ensures
        line@ == request_line(id, method_json@, params_json@),
{
    let mut line = String::from_str("{\"jsonrpc\":\"2.0\",\"id\":");
    push_decimal(&mut line, id);
    line.append(",\"method\":");
    line.append(method_json);
    line.append(",\"params\":");
    line.append(params_json);
    line.append("}");
    line
}

/// Prints the request for an id, a method name and parameters as one line.
///
/// The method name and the parameters are printed by `serde_json`. The
/// request is printed if and only if it prints both; where it reports an
/// error the request is given up with that error's text.
pub fn encode_request(id: u64, method: &str, params: &serde_json::Value) -> (encoded: Result<
    String,
    CallError,
>)
    ensures
        encoded is Ok <==> request_prints(method@, *params),
        match encoded {
            Ok(line) => line@ == request_for(id, method@, *params) && single_line(line@),
            Err(error) => error is Encode,
        },
{
    let name = crate::json::string(method);
    let method_json = match crate::json::to_text(&name) {
        Ok(text) => text,
        Err(error) => {
            return Err(CallError::Encode(crate::json::error_text(&error)));
        },
    };
    let params_json = match crate::json::to_text(params) {
        Ok(text) => text,
        Err(error) => {
            return Err(CallError::Encode(crate::json::error_text(&error)));
        },
    };
    proof {
        lemma_request_single_line(id, method_json@, params_json@);
    }
    Ok(frame_request(id, method_json.as_str(), params_json.as_str()))
}

/// A decoded response: the id of the call it answers and what it carries.
#[derive(Debug, PartialEq, Eq)]
pub struct Response {
    /// The id of the request that the worker answers.
    pub id: u64,
    /// The worker's `result`, else its `error`, else JSON `null`.
    pub payload: serde_json::Value,
}

/// Whether a value is what a response with these `result` and `error`
/// members carries: the result where there is one, else the error where
/// there is one, else JSON `null`.
pub open spec fn carries(
    result: Option<serde_json::Value>,
    error: Option<serde_json::Value>,
    payload: serde_json::Value,
) -> bool {
    match result {
        Some(value) => payload == value,
        None => match error {
            Some(value) => payload == value,
            None => json_text(payload) == "null"@,
        },
    }
}

/// The id that a JSON document names as a response: its member `id`, where
/// that is an unsigned integer.
pub open spec fn document_id(document: serde_json::Value) -> Option<u64> {
    match json_member(document, "id"@) {
        Some(id) => json_u64(id),
        None => None,
    }
}

/// The id of the response that a line holds, `None` where the line is no
/// JSON or names no id.
pub open spec fn response_id(line: Seq<char>) -> Option<u64> {
    match json_parse(line) {
        Some(document) => document_id(document),
        None => None,
    }
}

/// Whether a JSON document reads as a response with this id and payload.
pub open spec fn reads_as(document: serde_json::Value, id: u64, payload: serde_json::Value) -> bool {
    &&& document_id(document) == Some(id)
    &&& carries(json_member(document, "result"@), json_member(document, "error"@), payload)
}

/// Whether a line holds a response with this id and payload.
pub open spec fn answers(line: Seq<char>, id: u64, payload: serde_json::Value) -> bool {
    json_parse(line) matches Some(document) && reads_as(document, id, payload)
}

/// Whether `decoded` is the reading of a line: nothing for a line that is no
/// JSON or names no id, else the response that the line holds.
pub open spec fn decodes_to(line: Seq<char>, decoded: Option<Response>) -> bool {
    match decoded {
        Some(response) => answers(line, response.id, response.payload),
        None => response_id(line) is None,
    }
}

impl Response {
    /// Puts a response together from the three members of a document that
    /// matter: no response without an id; the result before the error; JSON
    /// `null` where both are missing.
    pub fn assemble(
        id: Option<u64>,
        result: Option<serde_json::Value>,
        error: Option<serde_json::Value>,
    ) -> (assembled: Option<Response>)
        ensures
            assembled is Some <==> id is Some,
            assembled matches Some(response) ==> Some(response.id) == id && carries(
                result,
                error,
                response.payload,
            ),
    {
        match id {
            None => None,
            Some(id) => {
                let payload = match result {
                    Some(value) => value,
                    None => match error {
                        Some(value) => value,
                        None => crate::json::null(),
                    },
                };
                Some(Response { id, payload })
            },
        }
    }

    /// Reads a response out of a JSON document.
    pub fn read(document: &serde_json::Value) -> (read: Option<Response>)
        ensures
            read is Some <==> document_id(*document) is Some,
            read matches Some(response) ==> reads_as(*document, response.id, response.payload),
    {
        let id = match crate::json::member(document, "id") {
            Some(value) => crate::json::as_u64(&value),
            None => None,
        };
        let result = crate::json::member(document, "result");
        let error = crate::json::member(document, "error");
        Response::assemble(id, result, error)
    }
}

/// Decodes one line of worker output. A line that is no JSON, or that names
/// no unsigned id, decodes to nothing.
pub fn decode_response(line: &str) -> (decoded: Option<Response>)
    ensures
        decodes_to(line@, decoded),
        decoded is Some <==> response_id(line@) is Some,
{
    match crate::json::parse(line) {
        Ok(document) => Response::read(&document),
        Err(_) => None,
    }
}

} // verus!
