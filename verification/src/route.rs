//! The request router: which requests open a tunnel, and what the others
//! are told.
//!
//! One route is known: `PUT /stream`. Such a request makes the bridge dial
//! its target; if the dial succeeds the reply carries the tunnel, if not the
//! caller is told that the gateway failed. Every other request is answered
//! at once with an empty `404`.

use crate::session::Session;
use vstd::prelude::*;
use vstd::string::StringSliceAdditionalSpecFns;
use vstd::utf8::encode_utf8_decode_utf8;

verus! {

/// What a request is for.
#[derive(Clone, Copy, Debug, PartialEq, Eq, Structural)]
pub enum Route {
    Stream,
    NotFound,
}

/// What the body of a reply is.
#[derive(Clone, Copy, Debug, PartialEq, Eq, Structural)]
pub enum ReplyBody {
    /// No bytes at all.
    Empty,
    /// The frames that the outbound pump hands over, for as long as it runs.
    Tunnel,
}

/// A reply to one request.
#[derive(Clone, Copy, Debug, PartialEq, Eq, Structural)]
pub struct Reply {
    pub status: u16,
    pub body: ReplyBody,
}

/// What the handler of a request does first.
#[derive(Clone, Copy, Debug, PartialEq, Eq, Structural)]
pub enum Step {
    /// Dial the target, then ask `on_dial`.
    Dial,
    /// Send this reply; nothing else happens.
    Answer(Reply),
}

/// What the handler of a streaming request does once the dial has ended:
/// it keeps `session`, sends `reply` and, with `complain`, first reports
/// that the dial failed.
#[derive(Clone, Copy, Debug, PartialEq, Eq, Structural)]
pub struct Opening {
    pub session: Session,
    pub reply: Reply,
    pub complain: bool,
}

/// The method and the path of the one streaming route.
pub open spec fn opens_tunnel(method: Seq<char>, path: Seq<char>) -> bool {
    method == "PUT"@ && path == "/stream"@
}

/// What a request with this method and this path is for.
pub open spec fn route_of(method: Seq<char>, path: Seq<char>) -> Route {
    if opens_tunnel(method, path) {
        Route::Stream
    } else {
        Route::NotFound
    }
}

/// `200`, with the tunnel as its body.
pub open spec fn tunnel_reply() -> Reply {
    Reply { status: 200, body: ReplyBody::Tunnel }
}

/// `404`, with nothing in its body.
pub open spec fn not_found_reply() -> Reply {
    Reply { status: 404, body: ReplyBody::Empty }
}

/// `502`, with nothing in its body.
pub open spec fn bad_gateway_reply() -> Reply {
    Reply { status: 502, body: ReplyBody::Empty }
}

/// The first step for a request with this method and this path.
pub open spec fn step_for(method: Seq<char>, path: Seq<char>) -> Step {
    if opens_tunnel(method, path) {
        Step::Dial
    } else {
        Step::Answer(not_found_reply())
    }
}

/// hyper's `Method::PUT`, spelled out by `Method::as_str`: the token `PUT`,
/// in capitals.
#[verifier::external_body]
fn put_token() -> (token: String)
    ensures
        token@ == "PUT"@,
{
    hyper::Method::PUT.as_str().to_string()
}

/// hyper's `StatusCode::OK`, as a number by `StatusCode::as_u16`: 200.
#[verifier::external_body]
fn ok_code() -> (code: u16)
    ensures
        code == 200,
{
    hyper::StatusCode::OK.as_u16()
}

/// hyper's `StatusCode::NOT_FOUND`, as a number by `StatusCode::as_u16`: 404.
#[verifier::external_body]
fn not_found_code() -> (code: u16)
    ensures
        code == 404,
{
    hyper::StatusCode::NOT_FOUND.as_u16()
}

/// hyper's `StatusCode::BAD_GATEWAY`, as a number by `StatusCode::as_u16`: 502.
#[verifier::external_body]
fn bad_gateway_code() -> (code: u16)
    ensures
        code == 502,
{
    hyper::StatusCode::BAD_GATEWAY.as_u16()
}

/// Whether two texts are the same, character for character.
fn same_text(a: &str, b: &str) -> (same: bool)
    ensures
        same == (a@ == b@),
{
    let x = a.as_bytes();
    let y = b.as_bytes();
    proof {
        encode_utf8_decode_utf8(a@);
        encode_utf8_decode_utf8(b@);
    }
    if x.len() != y.len() {
        return false;
    }
    let mut i: usize = 0;
    while i < x.len()
        invariant
            x@ == a.spec_bytes(),
            y@ == b.spec_bytes(),
            x@.len() == y@.len(),
            i <= x@.len(),
            forall|j: int| 0 <= j < i ==> x@[j] == y@[j],
        decreases x@.len() - i,
    {
        if x[i] != y[i] {
            return false;
        }
        i += 1;
    }
    assert(x@ =~= y@);
    true
}

impl Reply {
    /// The reply that carries the tunnel.
    pub fn tunnel() -> (reply: Reply)
        ensures
            reply == tunnel_reply(),
    {
        Reply { status: ok_code(), body: ReplyBody::Tunnel }
    }

    /// The reply to a request that is not for the streaming route.
    pub fn not_found() -> (reply: Reply)
        ensures
            reply == not_found_reply(),
    {
        Reply { status: not_found_code(), body: ReplyBody::Empty }
    }

    /// The reply to a streaming request whose target could not be reached.
    pub fn bad_gateway() -> (reply: Reply)
        ensures
            reply == bad_gateway_reply(),
    {
        Reply { status: bad_gateway_code(), body: ReplyBody::Empty }
    }
}

/// Says what a request is for. Only the method and the path count, both to
/// the letter: `put` is no `PUT`, and `/stream/` is no `/stream`.
pub fn classify(method: &str, path: &str) -> (route: Route)
    ensures
        route == route_of(method@, path@),
{
    let token = put_token();
    if same_text(method, token.as_str()) && same_text(path, "/stream") {
        Route::Stream
    } else {
        Route::NotFound
    }
}

/// The first step for a request: dial for the streaming route, and for any
/// other request an empty `404` with no side effect.
pub fn on_request(method: &str, path: &str) -> (step: Step)
    ensures
        step == step_for(method@, path@),
        !opens_tunnel(method@, path@) ==> step == Step::Answer(
            Reply { status: 404, body: ReplyBody::Empty },
        ),
{
    match classify(method, path) {
        Route::Stream => Step::Dial,
        Route::NotFound => Step::Answer(Reply::not_found()),
    }
}

/// The step after the dial of a streaming request. A dial that succeeded
/// opens the session and the reply carries the tunnel. A dial that failed
/// is reported; it leaves a session that is over before it began, and the
/// caller gets an empty `502`.
pub fn on_dial(connected: bool, verbose: bool) -> (opening: Opening)
    ensures
        opening.session == Session::fresh(verbose).dialed(connected),
        opening.reply == if connected {
            tunnel_reply()
        } else {
            bad_gateway_reply()
        },
        opening.complain == !connected,
        connected ==> opening.session.streaming(),
        !connected ==> opening.session.over(),
{
    let mut session = Session::dialing(verbose);
    session.dial_ended(connected);
    let reply = if connected {
        Reply::tunnel()
    } else {
        Reply::bad_gateway()
    };
    Opening { session, reply, complain: !connected }
}

} // verus!
