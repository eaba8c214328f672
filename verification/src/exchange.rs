//! Requests to the Camofox server, and what its answers amount to.
use crate::codec;
use crate::json;
use crate::text;
use vstd::prelude::*;
use vstd::string::*;
use vstd::utf8::*;

verus! {

/// How long a request may take, in seconds.
pub const REQUEST_TIMEOUT_SECS: u64 = 30;

/// An HTTP method.
#[derive(Clone, Copy, Debug, PartialEq, Eq, Structural)]
pub enum Method {
    Get,
    Post,
    Delete,
}

/// A request that is ready to be sent.
#[derive(Debug)]
pub struct Request {
    pub method: Method,
    pub url: String,
    /// The access key, sent as a bearer token.
    pub bearer: Option<String>,
    /// The members of the JSON object sent as the body.
    pub body: Option<serde_json::Map<String, serde_json::Value>>,
}

/// What a request says.
#[verifier::ext_equal]
pub struct RequestModel {
    pub method: Method,
    pub url: Seq<char>,
    pub bearer: Option<Seq<char>>,
    pub body: Option<Map<Seq<char>, json::Json>>,
}

impl View for Request {
    type V = RequestModel;

    open spec fn view(&self) -> RequestModel {
        RequestModel {
            method: self.method,
            url: self.url@,
            bearer: text::text_option(self.bearer),
            body: match self.body {
                Some(object) => Some(json::members(object)),
                None => None,
            },
        }
    }
}

/// What became of a request: it could not be sent, its answer could not be
/// read to the end, or it was answered.
#[derive(Debug)]
pub enum Exchange {
    SendFailed { error: String },
    ReadFailed { error: String },
    Answered { status: u16, body: Vec<u8> },
}

impl Exchange {
    /// An answer carries a status code.
    pub open spec fn wf(self) -> bool {
        self matches Exchange::Answered { status, .. } ==> codec::is_status(status)
    }
}

/// An outcome as text: what came out, or the complaint.
pub open spec fn text_outcome(outcome: Result<String, String>) -> Result<Seq<char>, Seq<char>> {
    match outcome {
        Ok(inner) => Ok(inner@),
        Err(complaint) => Err(complaint@),
    }
}

/// The complaint that a refused request ends in: what the answer gives as its
/// `error`, or else the whole answer.
pub open spec fn refusal_text(
    line: Seq<char>,
    error: Option<Seq<char>>,
    answer: Seq<char>,
) -> Seq<char> {
    "Camofox returned "@ + line + ": "@ + match error {
        Some(inner) => inner,
        None => answer,
    }
}

/// The complaint goes on with the status code after its first words.
pub open spec fn names_status(complaint: Seq<char>, words: Seq<char>, status: u16) -> bool {
    (words + text::decimal(status as nat).push(' ')).is_prefix_of(complaint)
}

proof fn lemma_names_status(words: Seq<char>, line: Seq<char>, rest: Seq<char>, status: u16)
    requires
        text::decimal(status as nat).push(' ').is_prefix_of(line),
    ensures
        names_status(words + line + rest, words, status),
{
    let start = text::decimal(status as nat).push(' ');
    let whole = words + line + rest;
    let lead = words + start;
    assert(line.subrange(0, start.len() as int) == start);
    assert forall|i: int| 0 <= i < lead.len() implies #[trigger] whole[i] == lead[i] by {
        if i >= words.len() {
            assert(line.subrange(0, start.len() as int)[i - words.len()] == line[i - words.len()]);
        }
    }
    assert(lead == whole.subrange(0, lead.len() as int));
}

/// The text of the member `error` of a JSON answer.
pub open spec fn stated_error(body: Seq<u8>) -> Option<Seq<char>> {
    match json::parsed(body) {
        Ok(document) => json::text_member(document, "error"@),
        Err(_) => None,
    }
}

/// The body of a successful answer, or the complaint.
pub open spec fn reply_body(exchange: Exchange) -> Result<Seq<u8>, Seq<char>> {
    match exchange {
        Exchange::SendFailed { error } => Err("Camofox request failed: "@ + error@),
        Exchange::ReadFailed { error } => Err("Failed to read Camofox response: "@ + error@),
        Exchange::Answered { status, body } => if codec::is_success(status) {
            Ok(body@)
        } else {
            Err(
                refusal_text(
                    codec::status_line(status),
                    stated_error(body@),
                    codec::lossy_text(body@),
                ),
            )
        },
    }
}

/// The complaint about an answer that is not what it should be.
pub open spec fn invalid_text(error: Seq<char>) -> Seq<char> {
    "Invalid Camofox response: "@ + error
}

/// The outcome of a request whose answer only has to be JSON.
pub open spec fn acknowledgement(exchange: Exchange) -> Result<(), Seq<char>> {
    match reply_body(exchange) {
        Ok(body) => match json::parsed(body) {
            Ok(_) => Ok(()),
            Err(error) => Err(invalid_text(error)),
        },
        Err(complaint) => Err(complaint),
    }
}

/// The base64 form of a screenshot, or the complaint.
pub open spec fn screenshot_outcome(exchange: Exchange) -> Result<Seq<char>, Seq<char>> {
    match exchange {
        Exchange::SendFailed { error } => Err("Camofox request failed: "@ + error@),
        Exchange::ReadFailed { error } => Err("Failed to read Camofox screenshot: "@ + error@),
        Exchange::Answered { status, body } => if codec::is_success(status) {
            Ok(codec::base64_text(body@))
        } else {
            Err(
                "Camofox screenshot failed with "@ + codec::status_line(status) + ": "@
                    + codec::lossy_text(body@),
            )
        },
    }
}

/// Whether a status code reports success.
pub fn succeeded(status: u16) -> (found: bool)
    ensures
        found == codec::is_success(status),
{
    200 <= status && status <= 299
}

/// Words the refusal of a request.
pub fn refusal(line: &str, error: Option<String>, answer: String) -> (complaint: String)
    ensures
        complaint@ == refusal_text(line@, text::text_option(error), answer@),
{
    let mut complaint = text::joined("Camofox returned ", line);
    complaint.append(": ");
    match error {
        Some(inner) => complaint.append(inner.as_str()),
        None => complaint.append(answer.as_str()),
    }
    complaint
}

/// Takes the body out of a successful answer. Every other outcome of a request
/// becomes the complaint that the operation fails with.
pub fn request_json(exchange: Exchange) -> (outcome: Result<Vec<u8>, String>)
    requires
        exchange.wf(),
    ensures
        match reply_body(exchange) {
            Ok(bytes) => outcome matches Ok(body) && body@ == bytes,
            Err(text) => outcome matches Err(complaint) && complaint@ == text,
        },
        match exchange {
            Exchange::Answered { status, body } if !codec::is_success(status) => {
                &&& outcome matches Err(complaint)
                &&& names_status(complaint@, "Camofox returned "@, status)
                &&& valid_utf8(body@) ==> codec::lossy_text(body@) == decode_utf8(body@)
            },
            _ => true,
        },
{
    match exchange {
        Exchange::SendFailed { error } => Err(
            text::joined("Camofox request failed: ", error.as_str()),
        ),
        Exchange::ReadFailed { error } => Err(
            text::joined("Failed to read Camofox response: ", error.as_str()),
        ),
        Exchange::Answered { status, body } => {
            if succeeded(status) {
                Ok(body)
            } else {
                let error = match json::parse(body.as_slice()) {
                    Ok(document) => json::member_text(&document, "error"),
                    Err(_) => None,
                };
                let line = codec::write_status(status);
                let answer = codec::read_lossily(body.as_slice());
                let complaint = refusal(line.as_str(), error, answer);
                proof {
                    let words = "Camofox returned "@;
                    let rest = complaint@.skip((words.len() + line@.len()) as int);
                    lemma_names_status(words, line@, rest, status);
                    assert(words + line@ + rest == complaint@);
                }
                Err(complaint)
            }
        },
    }
}

/// Hands on what a successful answer was decoded to, or words the complaint
/// that it could not be.
pub fn decoded<T>(outcome: Result<T, String>) -> (result: Result<T, String>)
    ensures
        match outcome {
            Ok(value) => result == Ok::<T, String>(value),
            Err(error) => result matches Err(complaint) && complaint@ == invalid_text(error@),
        },
{
    match outcome {
        Ok(value) => Ok(value),
        Err(error) => Err(text::joined("Invalid Camofox response: ", error.as_str())),
    }
}

/// The outcome of an operation whose answer carries nothing of use: it has to
/// report success and to be JSON.
pub fn acknowledged(exchange: Exchange) -> (outcome: Result<(), String>)
    requires
        exchange.wf(),
    ensures
        match acknowledgement(exchange) {
            Ok(_) => outcome is Ok,
            Err(text) => outcome matches Err(complaint) && complaint@ == text,
        },
{
    match request_json(exchange) {
        Ok(body) => match decoded(json::parse(body.as_slice())) {
            Ok(_) => Ok(()),
            Err(complaint) => Err(complaint),
        },
        Err(complaint) => Err(complaint),
    }
}

/// Turns the answer to a screenshot request into the base64 form of the image.
pub fn screenshot_reply(exchange: Exchange) -> (outcome: Result<String, String>)
    requires
        exchange.wf(),
        match exchange {
            Exchange::Answered { status, body } => codec::is_success(status) ==> codec::base64_fits(
                body@.len(),
            ),
            _ => true,
        },
    ensures
        text_outcome(outcome) == screenshot_outcome(exchange),
        match exchange {
            Exchange::Answered { status, body } if !codec::is_success(status) => {
                &&& outcome matches Err(complaint)
                &&& names_status(complaint@, "Camofox screenshot failed with "@, status)
                &&& valid_utf8(body@) ==> codec::lossy_text(body@) == decode_utf8(body@)
            },
            _ => true,
        },
{
    match exchange {
        Exchange::SendFailed { error } => Err(
            text::joined("Camofox request failed: ", error.as_str()),
        ),
        Exchange::ReadFailed { error } => Err(
            text::joined("Failed to read Camofox screenshot: ", error.as_str()),
        ),
        Exchange::Answered { status, body } => {
            if succeeded(status) {
                Ok(codec::base64_encode(body.as_slice()))
            } else {
                let line = codec::write_status(status);
                let answer = codec::read_lossily(body.as_slice());
                let mut complaint = text::joined(
                    "Camofox screenshot failed with ",
                    line.as_str(),
                );
                complaint.append(": ");
                complaint.append(answer.as_str());
                proof {
                    let words = "Camofox screenshot failed with "@;
                    let rest = ": "@ + answer@;
                    lemma_names_status(words, line@, rest, status);
                    assert(words + line@ + rest == complaint@);
                }
                Err(complaint)
            }
        },
    }
}

/// The bytes of a screenshot can be had back: decoding what a successful answer
/// is turned into gives exactly the answer's body.
pub proof fn screenshots_decode_to_the_body(exchange: Exchange)
    ensures
        match exchange {
            Exchange::Answered { status, body } => codec::is_success(status) ==> (
            screenshot_outcome(exchange) matches Ok(encoded) && codec::base64_bytes(encoded)
                == body@),
            _ => screenshot_outcome(exchange) is Err,
        },
{
    if let Exchange::Answered { status, body } = exchange {
        codec::base64_decodes_to_what_was_encoded(body@);
    }
}

/// Hands on a text that was found, or complains.
pub fn text_or_complaint(found: Option<&str>, complaint: &str) -> (outcome: Result<String, String>)
    ensures
        match found {
            Some(inner) => text_outcome(outcome) == Ok::<Seq<char>, Seq<char>>(inner@),
            None => text_outcome(outcome) == Err::<Seq<char>, Seq<char>>(complaint@),
        },
{
    match found {
        Some(inner) => Ok(inner.to_owned()),
        None => Err(complaint.to_owned()),
    }
}

/// What an evaluated expression gave, where it has to be a string.
pub open spec fn string_outcome(value: json::Json, complaint: Seq<char>) -> Result<
    Seq<char>,
    Seq<char>,
> {
    match value {
        json::Json::Text(inner) => Ok(inner),
        _ => Err(complaint),
    }
}

/// The address that `location.href` was evaluated to.
pub fn url_reply(value: &serde_json::Value) -> (outcome: Result<String, String>)
    ensures
        text_outcome(outcome) == string_outcome(
            json::contents(*value),
            "Camofox returned a non-string URL"@,
        ),
{
    text_or_complaint(json::as_text(value), "Camofox returned a non-string URL")
}

/// The title that `document.title` was evaluated to.
pub fn title_reply(value: &serde_json::Value) -> (outcome: Result<String, String>)
    ensures
        text_outcome(outcome) == string_outcome(
            json::contents(*value),
            "Camofox returned a non-string title"@,
        ),
{
    text_or_complaint(json::as_text(value), "Camofox returned a non-string title")
}

/// The page source that `document.documentElement.outerHTML` was evaluated to.
pub fn content_reply(value: &serde_json::Value) -> (outcome: Result<String, String>)
    ensures
        text_outcome(outcome) == string_outcome(
            json::contents(*value),
            "Camofox returned non-string page content"@,
        ),
{
    text_or_complaint(json::as_text(value), "Camofox returned non-string page content")
}

} // verus!
