//! Maps a request's method and path onto an operation of the shared state,
//! and shapes each outcome into a reply with a status code.
use vstd::prelude::*;
use vstd::string::StrSliceExecFns;
use vstd::string::StringExecFns;
use crate::message_list::add_error;
use crate::message_list::texts_of;
use crate::message_list::valid_store;
use crate::state::State;

verus! {

/// The operations a request can name.
#[derive(PartialEq, Eq, Structural, Clone, Copy, Debug)]
pub enum Route {
    /// `GET /health`
    Health,
    /// `GET /`
    Index,
    /// `GET /get-messages`
    GetMessages,
    /// `POST /add-message`
    AddMessage,
    /// Any other method and path.
    NotFound,
}

/// What a reply carries.
pub enum ReplyBody {
    /// No payload: the acknowledgment of an accepted message.
    Empty,
    /// Plain text.
    Text(String),
    /// The JSON object `{"messages": [...]}` with these messages, newest first.
    Messages(Vec<String>),
    /// A redirect to this location.
    SeeOther(String),
}

/// A status code and a payload.
pub struct Reply {
    pub code: u16,
    pub body: ReplyBody,
}

/// The route that a method and a path select.
pub open spec fn route_of(method: Seq<char>, path: Seq<char>) -> Route {
    if method == "GET"@ && path == "/health"@ {
        Route::Health
    } else if method == "GET"@ && path == "/"@ {
        Route::Index
    } else if method == "GET"@ && path == "/get-messages"@ {
        Route::GetMessages
    } else if method == "POST"@ && path == "/add-message"@ {
        Route::AddMessage
    } else {
        Route::NotFound
    }
}

/// The reply's text, if it carries text.
pub open spec fn text_of(b: ReplyBody) -> Option<Seq<char>> {
    match b {
        ReplyBody::Text(s) => Some(s@),
        _ => None,
    }
}

/// The error text for a body that is absent, malformed, or lacks a string `text`.
pub open spec fn invalid_body_text() -> Seq<char> {
    "Invalid request body: expected a JSON object with a string field text."@
}

/// The characters of an optional string.
pub open spec fn opt_text(t: Option<String>) -> Option<Seq<char>> {
    match t {
        Some(s) => Some(s@),
        None => None,
    }
}

/// The status of the reply to an add request whose body gave `text`.
pub open spec fn add_status(text: Option<Seq<char>>) -> u16 {
    match text {
        None => 400,
        Some(t) => if add_error(t) is Some {
            400
        } else {
            200
        },
    }
}

/// The text of the reply to an add request whose body gave `text`: the
/// reason for a refusal, and none on success.
pub open spec fn add_reply_text(text: Option<Seq<char>>) -> Option<Seq<char>> {
    match text {
        None => Some(invalid_body_text()),
        Some(t) => add_error(t),
    }
}

/// Whether two strings hold the same characters.
fn same_text(a: &str, b: &str) -> (r: bool)
    ensures
        r == (a@ == b@),
{
    let n: usize = a.unicode_len();
    if n != b.unicode_len() {
        return false;
    }
    let mut i: usize = 0;
    while i < n
        invariant
            n == a@.len(),
            n == b@.len(),
            i <= n,
            forall|j: int| 0 <= j < i ==> a@[j] == b@[j],
        decreases n - i,
    {
        if a.get_char(i) != b.get_char(i) {
            return false;
        }
        i = i + 1;
    }
    assert(a@ =~= b@);
    true
}

/// Selects the route for a method and a path.
pub fn route(method: &str, path: &str) -> (r: Route)
    ensures
        r == route_of(method@, path@),
{
    let get = same_text(method, "GET");
    if get && same_text(path, "/health") {
        Route::Health
    } else if get && same_text(path, "/") {
        Route::Index
    } else if get && same_text(path, "/get-messages") {
        Route::GetMessages
    } else if same_text(method, "POST") && same_text(path, "/add-message") {
        Route::AddMessage
    } else {
        Route::NotFound
    }
}

/// `200` with the current messages, newest first, read at one point in time.
pub fn get_messages(state: &State) -> (r: Reply)
    ensures
        r.code == 200,
        r.body matches ReplyBody::Messages(v) && valid_store(texts_of(v@)),
{
    Reply { code: 200, body: ReplyBody::Messages(state.snapshot()) }
}

/// Adds the `text` field of a request body. `None` stands for a body that is
/// absent, malformed, or without a string `text`: that is `400`. A refused
/// text is `400` with the reason; an accepted one is `200` with no payload.
pub fn add_message(state: &State, text: Option<String>) -> (r: Reply)
    ensures
        r.code == add_status(opt_text(text)),
        text_of(r.body) == add_reply_text(opt_text(text)),
        r.code == 200 ==> r.body is Empty,
{
    match text {
        None => {
            let s = String::from_str(
                "Invalid request body: expected a JSON object with a string field text.",
            );
            Reply { code: 400, body: ReplyBody::Text(s) }
        },
        Some(t) => match state.add(t) {
            Ok(()) => Reply { code: 200, body: ReplyBody::Empty },
            Err(e) => Reply { code: 400, body: ReplyBody::Text(e) },
        },
    }
}

/// Answers a request by its route. `text` is the `text` field of the JSON
/// body where the body holds one; it is read only on `POST /add-message`.
pub fn respond(state: &State, method: &str, path: &str, text: Option<String>) -> (r: Reply)
    ensures
        route_of(method@, path@) == Route::Health ==> r.code == 200 && text_of(r.body) == Some(
            "ok"@,
        ),
        route_of(method@, path@) == Route::Index ==> r.code == 303 && (r.body matches ReplyBody::SeeOther(l)
            && l@ == "/index.html"@),
        route_of(method@, path@) == Route::GetMessages ==> r.code == 200 && (r.body matches ReplyBody::Messages(v)
            && valid_store(texts_of(v@))),
        route_of(method@, path@) == Route::AddMessage ==> r.code == add_status(opt_text(text))
            && text_of(r.body) == add_reply_text(opt_text(text)) && (r.code == 200 ==> r.body is Empty),
        route_of(method@, path@) == Route::NotFound ==> r.code == 404 && text_of(r.body) == Some(
            "Not found"@,
        ),
{
    match route(method, path) {
        Route::Health => Reply { code: 200, body: ReplyBody::Text(String::from_str("ok")) },
        Route::Index => Reply {
            code: 303,
            body: ReplyBody::SeeOther(String::from_str("/index.html")),
        },
        Route::GetMessages => get_messages(state),
        Route::AddMessage => add_message(state, text),
        Route::NotFound => Reply { code: 404, body: ReplyBody::Text(String::from_str("Not found")) },
    }
}

} // verus!
