//! The presence payload: a text and an icon.

use vstd::prelude::*;
use vstd::string::StringExecFns;

verus! {

/// A presence payload: the text shown and the icon beside it.
#[derive(Debug)]
pub struct Status {
    pub message: String,
    pub emoji: String,
}

/// What a [`Status`] holds, as plain texts.
pub struct StatusView {
    pub message: Seq<char>,
    pub emoji: Seq<char>,
}

impl View for Status {
    type V = StatusView;

    open spec fn view(&self) -> StatusView {
        StatusView { message: self.message@, emoji: self.emoji@ }
    }
}

/// The status with no text and no icon.
pub open spec fn empty_status() -> StatusView {
    StatusView { message: Seq::empty(), emoji: Seq::empty() }
}

impl Default for Status {
    fn default() -> (status: Self)
        ensures
            status@ == empty_status(),
    {
        Self { message: String::new(), emoji: String::new() }
    }
}

impl Clone for Status {
    fn clone(&self) -> (copy: Self)
        ensures
            copy@ == self@,
    {
        Status { message: self.message.clone(), emoji: self.emoji.clone() }
    }
}

impl PartialEq for Status {
    fn eq(&self, other: &Self) -> (equal: bool) {
        self.message == other.message && self.emoji == other.emoji
    }
}

impl vstd::std_specs::cmp::PartialEqSpecImpl for Status {
    open spec fn obeys_eq_spec() -> bool {
        true
    }

    open spec fn eq_spec(&self, other: &Self) -> bool {
        self.message@ == other.message@ && self.emoji@ == other.emoji@
    }
}

impl Eq for Status {}

/// A text as a JSON string: in double quotes, with the escapes that
/// serde_json writes.
pub uninterp spec fn json_string(s: Seq<char>) -> Seq<char>;

/// Writes a text as a JSON string with serde_json: `Value::String` holds the
/// text and `to_string` serialises it. Trusted: the result depends on the
/// characters of the text alone.
#[verifier::external_body]
fn to_json_string(s: &str) -> (quoted: String)
    ensures
        quoted@ == json_string(s@),
{
    serde_json::Value::String(s.to_owned()).to_string()
}

/// The body of a request that sets a custom status, over the text and the
/// icon as JSON strings.
pub open spec fn framed_body(text_json: Seq<char>, emoji_json: Seq<char>) -> Seq<char> {
    "{\"custom_status\":{\"emoji_name\":"@ + emoji_json + ",\"text\":"@ + text_json + "}}"@
}

/// The body of the request that sets `status`.
pub open spec fn body_of(status: StatusView) -> Seq<char> {
    framed_body(json_string(status.message), json_string(status.emoji))
}

/// Frames the body of a request that sets a custom status. `text_json` and
/// `emoji_json` are the text and the icon, each as a JSON string.
pub fn frame_status_body(text_json: &str, emoji_json: &str) -> (body: String)
    ensures
        body@ == framed_body(text_json@, emoji_json@),
{
    let mut body = String::from_str("{\"custom_status\":{\"emoji_name\":");
    body.append(emoji_json);
    body.append(",\"text\":");
    body.append(text_json);
    body.append("}}");
    body
}

/// The body of the request that sets `status`.
pub fn status_body(status: &Status) -> (body: String)
    ensures
        body@ == body_of(status@),
{
    let text_json = to_json_string(status.message.as_str());
    let emoji_json = to_json_string(status.emoji.as_str());
    frame_status_body(text_json.as_str(), emoji_json.as_str())
}

/// A request to the presence service, ready to be sent with the method PATCH.
#[derive(Debug)]
pub struct StatusRequest {
    pub url: String,
    pub authorization: String,
    pub content_type: String,
    pub body: String,
}

/// Where the custom status of the user is set.
pub open spec fn settings_url() -> Seq<char> {
    "https://discord.com/api/v10/users/@me/settings"@
}

/// The request that sets `status` for the user that `token` belongs to.
pub fn status_request(status: &Status, token: &str) -> (request: StatusRequest)
    ensures
        request.url@ == settings_url(),
        request.authorization@ == token@,
        request.content_type@ == "application/json"@,
        request.body@ == body_of(status@),
{
    StatusRequest {
        url: String::from_str("https://discord.com/api/v10/users/@me/settings"),
        authorization: String::from_str(token),
        content_type: String::from_str("application/json"),
        body: status_body(status),
    }
}

/// Why a status was not set.
#[derive(Debug, Clone, Copy, PartialEq, Eq, Structural)]
pub enum PushFailure {
    /// The request did not reach the service, or no response came back.
    Transport,
    /// The service answered with a status code that is no success.
    Rejected(u16),
}

/// How a push ended, by the HTTP status code of the response, or `None` where
/// no response came: the codes from 200 to 299 are a success, every other
/// code is a rejection, and no response is a failure of the transport.
pub open spec fn judged(response: Option<u16>) -> Result<(), PushFailure> {
    match response {
        Some(code) => if 200 <= code <= 299 {
            Ok(())
        } else {
            Err(PushFailure::Rejected(code))
        },
        None => Err(PushFailure::Transport),
    }
}

/// Judges how a push ended by the HTTP status code of the response.
/// `None` stands for a request to which no response came.
pub fn judge_response(response: Option<u16>) -> (outcome: Result<(), PushFailure>)
    ensures
        outcome == judged(response),
{
    match response {
        Some(code) => {
            if 200 <= code && code <= 299 {
                Ok(())
            } else {
                Err(PushFailure::Rejected(code))
            }
        },
        None => Err(PushFailure::Transport),
    }
}

} // verus!
