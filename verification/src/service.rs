//! What the target server answers: a handful of fixed endpoints to send
//! requests to.

use crate::text::str_eq;
use vstd::prelude::*;
use vstd::utf8::encode_utf8;

verus! {

/// The text that `/` answers with.
pub open spec fn root_text() -> Seq<char> {
    "Use /help to see what's possible"@
}

/// The text that `/help` answers with.
pub open spec fn help_text() -> Seq<char> {
    "/hello: Return a short message\n/help: Return this message"@
}

/// The text that `/hello` answers with.
pub open spec fn hello_text() -> Seq<char> {
    "Hello, World!"@
}

/// A response of the target: its status and its body.
#[derive(Debug)]
pub struct Response {
    pub status: u16,
    pub body: Vec<u8>,
}

/// A [`Response`] with its body as a sequence.
pub struct ResponseView {
    pub status: u16,
    pub body: Seq<u8>,
}

impl View for Response {
    type V = ResponseView;

    open spec fn view(&self) -> ResponseView {
        ResponseView { status: self.status, body: self.body@ }
    }
}

/// Where a request goes.
#[derive(Clone, Copy, Debug, PartialEq, Eq, Structural)]
pub enum Route {
    Root,
    Help,
    Hello,
    /// The one endpoint that reads the body of the request.
    Echo,
    /// A path that the target knows, asked with a method that it does not
    /// take there.
    MethodNotAllowed,
    /// A path that the target does not know.
    NotFound,
}

/// The route of a request: `/`, `/help` and `/hello` take GET, `/echo`
/// takes POST, and methods are compared letter for letter.
pub open spec fn route_of(method: Seq<char>, path: Seq<char>) -> Route {
    if path == "/"@ {
        if method == "GET"@ {
            Route::Root
        } else {
            Route::MethodNotAllowed
        }
    } else if path == "/help"@ {
        if method == "GET"@ {
            Route::Help
        } else {
            Route::MethodNotAllowed
        }
    } else if path == "/hello"@ {
        if method == "GET"@ {
            Route::Hello
        } else {
            Route::MethodNotAllowed
        }
    } else if path == "/echo"@ {
        if method == "POST"@ {
            Route::Echo
        } else {
            Route::MethodNotAllowed
        }
    } else {
        Route::NotFound
    }
}

/// What a route answers to a request with the body `body`: a text, the
/// body itself, or an empty response with the status 405 or 404.
pub open spec fn response_of(route: Route, body: Seq<u8>) -> ResponseView {
    match route {
        Route::Root => ResponseView { status: 200, body: encode_utf8(root_text()) },
        Route::Help => ResponseView { status: 200, body: encode_utf8(help_text()) },
        Route::Hello => ResponseView { status: 200, body: encode_utf8(hello_text()) },
        Route::Echo => ResponseView { status: 200, body },
        Route::MethodNotAllowed => ResponseView { status: 405, body: Seq::empty() },
        Route::NotFound => ResponseView { status: 404, body: Seq::empty() },
    }
}

/// A response with the status 200 and `text` for body.
pub fn full(text: &str) -> (response: Response)
    ensures
        response@ == (ResponseView { status: 200, body: encode_utf8(text@) }),
{
    Response { status: 200, body: text.as_bytes_vec() }
}

/// A response with the status 200 and no body.
pub fn empty() -> (response: Response)
    ensures
        response@ == (ResponseView { status: 200, body: Seq::empty() }),
{
    Response { status: 200, body: Vec::new() }
}

/// An empty response with the status `code`.
pub fn error(code: u16) -> (response: Response)
    ensures
        response@ == (ResponseView { status: code, body: Seq::empty() }),
{
    let mut response = empty();
    response.status = code;
    response
}

/// The answer of `/`.
pub fn root() -> (response: Response)
    ensures
        response@ == response_of(Route::Root, Seq::empty()),
{
    full("Use /help to see what's possible")
}

/// The answer of `/help`.
pub fn help() -> (response: Response)
    ensures
        response@ == response_of(Route::Help, Seq::empty()),
{
    full("/hello: Return a short message\n/help: Return this message")
}

/// The answer of `/hello`.
pub fn hello() -> (response: Response)
    ensures
        response@ == response_of(Route::Hello, Seq::empty()),
{
    full("Hello, World!")
}

/// The answer of `/echo`: the body of the request, byte for byte.
pub fn echo(body: Vec<u8>) -> (response: Response)
    ensures
        response@ == response_of(Route::Echo, body@),
{
    Response { status: 200, body }
}

/// Finds the route of a request.
pub fn route(method: &str, path: &str) -> (route: Route)
    ensures
        route == route_of(method@, path@),
{
    if str_eq(path, "/") {
        if str_eq(method, "GET") {
            Route::Root
        } else {
            Route::MethodNotAllowed
        }
    } else if str_eq(path, "/help") {
        if str_eq(method, "GET") {
            Route::Help
        } else {
            Route::MethodNotAllowed
        }
    } else if str_eq(path, "/hello") {
        if str_eq(method, "GET") {
            Route::Hello
        } else {
            Route::MethodNotAllowed
        }
    } else if str_eq(path, "/echo") {
        if str_eq(method, "POST") {
            Route::Echo
        } else {
            Route::MethodNotAllowed
        }
    } else {
        Route::NotFound
    }
}

/// Answers a request. The body is looked at by `/echo` alone.
pub fn handle(method: &str, path: &str, body: Vec<u8>) -> (response: Response)
    ensures
        response@ == response_of(route_of(method@, path@), body@),
{
    match route(method, path) {
        Route::Root => root(),
        Route::Help => help(),
        Route::Hello => hello(),
        Route::Echo => echo(body),
        Route::MethodNotAllowed => error(405),
        Route::NotFound => error(404),
    }
}

} // verus!
