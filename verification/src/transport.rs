//! The stdio transport's own rules: newline-delimited frames, answers to input that does
//! not parse, and the lifecycle gate that keeps requests out until `initialize`.
use vstd::prelude::*;

use rmcp::model::{
    ClientJsonRpcMessage, ClientNotification, ClientRequest, ClientResult, JsonRpcMessage,
};
use serde_json::error::Category;

use crate::actor::error::owned;

verus! {

/// JSON-RPC error code of a request sent before `initialize`.
pub const SERVER_NOT_INITIALIZED: i32 = -32002;

/// JSON-RPC error code of input that is not JSON.
pub const PARSE_ERROR: i32 = -32700;

/// JSON-RPC error code of JSON that is not a valid message.
pub const INVALID_REQUEST: i32 = -32600;

/// The length of a frame without its trailing line-break bytes (`\n` and `\r`).
pub open spec fn frame_end(line: Seq<u8>) -> nat
    decreases line.len(),
{
    if line.len() > 0 && (line.last() == 10u8 || line.last() == 13u8) {
        frame_end(line.drop_last())
    } else {
        line.len()
    }
}

/// The length of `line` without its trailing `\n` and `\r` bytes; a frame of length zero
/// is skipped.
pub fn frame_len(line: &[u8]) -> (n: usize)
    ensures
        n == frame_end(line@),
        n <= line@.len(),
{
    let mut n = line.len();
    assert(line@.subrange(0, n as int) =~= line@);
    while n > 0 && (line[n - 1] == 10u8 || line[n - 1] == 13u8)
        invariant
            n <= line@.len(),
            frame_end(line@.subrange(0, n as int)) == frame_end(line@),
        decreases n,
    {
        assert(line@.subrange(0, n as int).drop_last() =~= line@.subrange(0, n - 1));
        n = n - 1;
    }
    assert(line@.subrange(0, n as int).len() == n);
    n
}

/// The kind of a message that parsed.
#[derive(Clone, Copy, Debug, PartialEq, Eq)]
pub enum MessageKind {
    InitializeRequest,
    PingRequest,
    OtherRequest,
    /// A notification or a response.
    NotRequest,
}

/// What the transport does with a message.
#[derive(Clone, Copy, Debug, PartialEq, Eq)]
pub enum Route {
    /// Hand it to the server.
    Deliver,
    /// Answer it with the not-initialized error and read on.
    Reject,
    /// Drop it and read on.
    Skip,
}

/// The route of a message of `kind` for a session that has (`seen`) or has not yet seen
/// `initialize`: before it, only `initialize` and `ping` pass, other requests are
/// rejected and everything else is dropped; after it, everything passes.
pub open spec fn route_for(seen: bool, kind: MessageKind) -> Route {
    if seen {
        Route::Deliver
    } else {
        match kind {
            MessageKind::InitializeRequest | MessageKind::PingRequest => Route::Deliver,
            MessageKind::OtherRequest => Route::Reject,
            MessageKind::NotRequest => Route::Skip,
        }
    }
}

/// The lifecycle gate of one session.
pub struct Lifecycle {
    pub initialize_seen: bool,
}

impl Lifecycle {
    /// A session that has not seen `initialize`.
    pub fn new() -> (l: Lifecycle)
        ensures
            !l.initialize_seen,
    {
        Lifecycle { initialize_seen: false }
    }

    /// Routes one message, and notes `initialize` once it passes.
    pub fn route(&mut self, kind: MessageKind) -> (r: Route)
        ensures
            r == route_for(old(self).initialize_seen, kind),
            final(self).initialize_seen == (old(self).initialize_seen || kind
                == MessageKind::InitializeRequest),
    {
        if self.initialize_seen {
            return Route::Deliver;
        }
        match kind {
            MessageKind::InitializeRequest => {
                self.initialize_seen = true;
                Route::Deliver
            },
            MessageKind::PingRequest => Route::Deliver,
            MessageKind::OtherRequest => Route::Reject,
            MessageKind::NotRequest => Route::Skip,
        }
    }
}

/// Why a frame did not parse as a message.
#[derive(Clone, Copy, Debug, PartialEq, Eq)]
pub enum ParseFailure {
    /// Not JSON.
    Syntax,
    /// JSON cut short.
    Eof,
    /// JSON, but not a message.
    Data,
    Io,
}

/// A JSON-RPC error answer.
pub struct RpcError {
    pub code: i32,
    pub message: String,
}

/// What the client frame `frame` is, as `serde_json::from_slice` reads it into `rmcp`'s
/// client message type: its kind when it parses, else the category of the failure.
pub uninterp spec fn client_frame_kind(frame: Seq<u8>) -> Result<MessageKind, ParseFailure>;

#[verifier::external_type_specification]
#[verifier::external_body]
#[verifier::reject_recursive_types(Req)]
#[verifier::reject_recursive_types(Resp)]
#[verifier::reject_recursive_types(Noti)]
pub struct ExJsonRpcMessage<Req, Resp, Noti>(JsonRpcMessage<Req, Resp, Noti>);

#[verifier::external_type_specification]
#[verifier::external_body]
pub struct ExClientRequest(ClientRequest);

#[verifier::external_type_specification]
#[verifier::external_body]
pub struct ExClientResult(ClientResult);

#[verifier::external_type_specification]
#[verifier::external_body]
pub struct ExClientNotification(ClientNotification);

#[verifier::external_type_specification]
pub struct ExCategory(Category);

/// The failure that a parse error of `serde_json`'s category `category` reports.
fn failure_of(category: Category) -> (f: ParseFailure)
    ensures
        f == (match category {
            Category::Syntax => ParseFailure::Syntax,
            Category::Eof => ParseFailure::Eof,
            Category::Data => ParseFailure::Data,
            Category::Io => ParseFailure::Io,
        }),
{
    match category {
        Category::Syntax => ParseFailure::Syntax,
        Category::Eof => ParseFailure::Eof,
        Category::Data => ParseFailure::Data,
        Category::Io => ParseFailure::Io,
    }
}

/// Parses the first `len` bytes of `line` with `serde_json::from_slice` as an `rmcp`
/// client message, and hands back its kind with the message, or the failure that the
/// error's `classify()` category reports.
#[verifier::external_body]
pub fn parse_frame(line: &[u8], len: usize) -> (r: Result<(MessageKind, ClientJsonRpcMessage), ParseFailure>)
    requires
        len <= line@.len(),
    ensures
        r is Ok ==> client_frame_kind(line@.subrange(0, len as int)) is Ok
            && client_frame_kind(line@.subrange(0, len as int))->Ok_0 == r->Ok_0.0,
        r is Err ==> client_frame_kind(line@.subrange(0, len as int)) is Err
            && client_frame_kind(line@.subrange(0, len as int))->Err_0 == r->Err_0,
{
    let message: ClientJsonRpcMessage = serde_json::from_slice(&line[..len])
        .map_err(|error| failure_of(error.classify()))?;
    let kind = match &message {
        JsonRpcMessage::Request(request) => match &request.request {
            ClientRequest::InitializeRequest(_) => MessageKind::InitializeRequest,
            ClientRequest::PingRequest(_) => MessageKind::PingRequest,
            _ => MessageKind::OtherRequest,
        },
        _ => MessageKind::NotRequest,
    };
    Ok((kind, message))
}

/// What the transport does with one line read from the client: nothing for a line that
/// holds only line breaks; else the route of the message it frames, or the reason the
/// frame did not parse.
pub open spec fn frame_step_view(seen: bool, line: Seq<u8>) -> Option<Result<Route, ParseFailure>> {
    let n = frame_end(line);
    if n == 0 {
        None
    } else {
        match client_frame_kind(line.subrange(0, n as int)) {
            Ok(kind) => Some(Ok(route_for(seen, kind))),
            Err(failure) => Some(Err(failure)),
        }
    }
}

/// Whether the session has seen `initialize` after the line `line`.
pub open spec fn seen_after(seen: bool, line: Seq<u8>) -> bool {
    let n = frame_end(line);
    seen || (n > 0 && client_frame_kind(line.subrange(0, n as int)) == Ok::<
        MessageKind,
        ParseFailure,
    >(MessageKind::InitializeRequest))
}

/// Handles one line read from the client (see [`frame_step_view`]), handing back the
/// message with its route.
pub fn frame_step(lifecycle: &mut Lifecycle, line: &[u8]) -> (s: Option<
    Result<(Route, ClientJsonRpcMessage), ParseFailure>,
>)
    ensures
        frame_step_view(old(lifecycle).initialize_seen, line@) == (match s {
            None => None,
            Some(Ok((route, _))) => Some(Ok(route)),
            Some(Err(f)) => Some(Err(f)),
        }),
        final(lifecycle).initialize_seen == seen_after(old(lifecycle).initialize_seen, line@),
{
    let n = frame_len(line);
    if n == 0 {
        return None;
    }
    match parse_frame(line, n) {
        Ok((kind, message)) => Some(Ok((lifecycle.route(kind), message))),
        Err(failure) => Some(Err(failure)),
    }
}

/// The answer to a frame that did not parse: a parse error for text that is not (whole)
/// JSON, an invalid-request error otherwise.
pub fn parse_failure_error(failure: ParseFailure) -> (e: RpcError)
    ensures
        match failure {
            ParseFailure::Syntax | ParseFailure::Eof => e.code == PARSE_ERROR && e.message@
                == "Parse error"@,
            ParseFailure::Data | ParseFailure::Io => e.code == INVALID_REQUEST && e.message@
                == "Invalid request"@,
        },
{
    match failure {
        ParseFailure::Syntax | ParseFailure::Eof => RpcError {
            code: PARSE_ERROR,
            message: owned("Parse error"),
        },
        ParseFailure::Data | ParseFailure::Io => RpcError {
            code: INVALID_REQUEST,
            message: owned("Invalid request"),
        },
    }
}

/// The answer to a request sent before `initialize`.
pub fn not_initialized_error() -> (e: RpcError)
    ensures
        e.code == SERVER_NOT_INITIALIZED,
        e.message@ == "Server not initialized"@,
{
    RpcError { code: SERVER_NOT_INITIALIZED, message: owned("Server not initialized") }
}


/// Until `initialize` has passed, no request but `initialize` and `ping` reaches the
/// server and nothing else is answered but requests; after it, every message passes.
pub proof fn law_lifecycle_gate(seen: bool, kind: MessageKind)
    ensures
        !seen && route_for(seen, kind) == Route::Deliver ==> kind == MessageKind::InitializeRequest
            || kind == MessageKind::PingRequest,
        !seen && route_for(seen, kind) == Route::Reject ==> kind == MessageKind::OtherRequest,
        seen ==> route_for(seen, kind) == Route::Deliver,
{
}

/// A frame reads the same whether or not its line ends in `\n` or `\r\n`, and a line
/// that holds only line-break bytes is an empty frame.
pub proof fn law_frame_ignores_line_endings(line: Seq<u8>)
    ensures
        frame_end(line.push(10u8)) == frame_end(line),
        frame_end(line.push(13u8).push(10u8)) == frame_end(line),
        frame_end(line) <= line.len(),
    decreases line.len(),
{
    assert(line.push(10u8).drop_last() =~= line);
    assert(line.push(13u8).push(10u8).drop_last() =~= line.push(13u8));
    assert(line.push(13u8).drop_last() =~= line);
    assert(frame_end(line.push(13u8)) == frame_end(line));
    assert(frame_end(line.push(13u8).push(10u8)) == frame_end(line.push(13u8)));
    if line.len() > 0 {
        law_frame_ignores_line_endings(line.drop_last());
    }
}

} // verus!
