//! The JSON-RPC 2.0 envelope as the dispatcher sees it.
//!
//! Parsing a line into a JSON-RPC message and printing a response object are
//! done by `jsonrpc-lite` over `serde_json`; this module holds the library's
//! own model of both (ids, error objects, replies) and the trusted calls that
//! cross into those crates.

use jsonrpc_lite::{Id, JsonRpc};
use serde_json::Value;
use vstd::prelude::*;

verus! {

/// A request id as the client sent it: a number, a string, or `null`.
#[derive(Debug, Clone, PartialEq, Eq)]
pub enum RpcId {
    Num(i64),
    Str(String),
    Null,
}

/// Abstract request id.
pub enum IdView {
    Num(i64),
    Str(Seq<char>),
    Null,
}

impl View for RpcId {
    type V = IdView;

    open spec fn view(&self) -> IdView {
        match self {
            RpcId::Num(n) => IdView::Num(*n),
            RpcId::Str(s) => IdView::Str(s@),
            RpcId::Null => IdView::Null,
        }
    }
}

/// A JSON-RPC error object: a code and a short message.
#[derive(Debug, Clone, PartialEq, Eq)]
pub struct RpcError {
    pub code: i64,
    pub message: String,
}

/// Abstract error object.
pub struct RpcErrorView {
    pub code: i64,
    pub message: Seq<char>,
}

impl View for RpcError {
    type V = RpcErrorView;

    open spec fn view(&self) -> RpcErrorView {
        RpcErrorView { code: self.code, message: self.message@ }
    }
}

/// Invalid JSON was received.
pub open spec fn parse_error_view() -> RpcErrorView {
    RpcErrorView { code: -32700i64, message: "Parse error"@ }
}

/// The JSON is not a request object.
pub open spec fn invalid_request_view() -> RpcErrorView {
    RpcErrorView { code: -32600i64, message: "Invalid request"@ }
}

/// The method is not one the server offers.
pub open spec fn method_not_found_view() -> RpcErrorView {
    RpcErrorView { code: -32601i64, message: "Method not found"@ }
}

/// The parameters do not fit the method.
pub open spec fn invalid_params_view() -> RpcErrorView {
    RpcErrorView { code: -32602i64, message: "Invalid params"@ }
}

impl RpcError {
    /// `-32700`, as `jsonrpc-lite`'s `Error::parse_error` builds it.
    pub fn parse_error() -> (e: RpcError)
        ensures
            e@ == parse_error_view(),
    {
        RpcError { code: -32700, message: String::from_str("Parse error") }
    }

    /// `-32600`, as `jsonrpc-lite`'s `Error::invalid_request` builds it.
    pub fn invalid_request() -> (e: RpcError)
        ensures
            e@ == invalid_request_view(),
    {
        RpcError { code: -32600, message: String::from_str("Invalid request") }
    }

    /// `-32601`, as `jsonrpc-lite`'s `Error::method_not_found` builds it.
    pub fn method_not_found() -> (e: RpcError)
        ensures
            e@ == method_not_found_view(),
    {
        RpcError { code: -32601, message: String::from_str("Method not found") }
    }

    /// `-32602`, as `jsonrpc-lite`'s `Error::invalid_params` builds it.
    pub fn invalid_params() -> (e: RpcError)
        ensures
            e@ == invalid_params_view(),
    {
        RpcError { code: -32602, message: String::from_str("Invalid params") }
    }
}

/// The value of the single member of a success result object.
#[derive(Debug, Clone, Copy, PartialEq, Eq, Structural)]
pub enum ResultValue {
    Flag(bool),
    Number(u64),
}

/// What the server answers a request with: a result object with one member,
/// or an error object.
#[derive(Debug, Clone, PartialEq, Eq)]
pub enum Reply {
    Success { key: String, value: ResultValue },
    Failure(RpcError),
}

/// Abstract reply.
pub enum ReplyView {
    Success { key: Seq<char>, value: ResultValue },
    Failure(RpcErrorView),
}

impl View for Reply {
    type V = ReplyView;

    open spec fn view(&self) -> ReplyView {
        match self {
            Reply::Success { key, value } => ReplyView::Success { key: key@, value: *value },
            Reply::Failure(e) => ReplyView::Failure(e@),
        }
    }
}

#[verifier::external_type_specification]
#[verifier::external_body]
pub struct ExParams(jsonrpc_lite::Params);

/// The method call part of a message: its name and, if present, its params.
pub struct Call {
    pub method: String,
    pub params: Option<jsonrpc_lite::Params>,
}

/// A parsed JSON-RPC message, reduced to what the dispatcher reads: the id
/// (absent for a notification) and the call (absent for a response object).
pub struct Message {
    pub id: Option<RpcId>,
    pub call: Option<Call>,
}

/// Abstract message: its id, its method name, and the params of its call
/// (`None` when there is no call or the call has no params).
pub struct MessageView {
    pub id: Option<IdView>,
    pub method: Option<Seq<char>>,
    pub params: Option<jsonrpc_lite::Params>,
}

impl View for Message {
    type V = MessageView;

    open spec fn view(&self) -> MessageView {
        MessageView {
            id: match self.id {
                Some(i) => Some(i@),
                None => None,
            },
            method: match self.call {
                Some(c) => Some(c.method@),
                None => None,
            },
            params: match self.call {
                Some(c) => c.params,
                None => None,
            },
        }
    }
}

/// The abstract message of an optional parse result.
pub open spec fn parsed_view(m: Option<Message>) -> Option<MessageView> {
    match m {
        Some(msg) => Some(msg@),
        None => None,
    }
}

/// What `serde_json::from_slice::<jsonrpc_lite::JsonRpc>` makes of a line:
/// `None` when it fails, else the message's id, method name and params.
pub uninterp spec fn message_of(line: Seq<u8>) -> Option<MessageView>;

/// Calls `serde_json::from_slice` to parse a line as a `jsonrpc_lite::JsonRpc`
/// and takes the message apart: a request gives its id and call, a
/// notification only its call, a success or error object only its id.
/// The contract claims that the id, the method name and the params value are
/// a function of the line's bytes; what the params value holds is not stated.
#[verifier::external_body]
pub(crate) fn parse_message(line: &[u8]) -> (m: Option<Message>)
    ensures
        parsed_view(m) == message_of(line@),
{
    let (id, call) = match serde_json::from_slice(line).ok()? {
        JsonRpc::Request(r) => (Some(r.id), Some(Call { method: r.method, params: r.params })),
        JsonRpc::Notification(n) => (None, Some(Call { method: n.method, params: n.params })),
        JsonRpc::Success(s) => (Some(s.id), None),
        JsonRpc::Error(e) => (Some(e.id), None),
    };
    let id = match id {
        Some(Id::Num(n)) => Some(RpcId::Num(n)),
        Some(Id::Str(s)) => Some(RpcId::Str(s)),
        Some(Id::None(_)) => Some(RpcId::Null),
        None => None,
    };
    Some(Message { id, call })
}

/// The text `serde_json::to_string` gives a `jsonrpc_lite::JsonRpc` success
/// object with this id whose result is an object with one member.
pub uninterp spec fn success_json(id: IdView, key: Seq<char>, value: ResultValue) -> Seq<char>;

/// The text `serde_json::to_string` gives a `jsonrpc_lite::JsonRpc` error
/// object with this id and this error code and message (no data).
pub uninterp spec fn error_json(id: IdView, code: i64, message: Seq<char>) -> Seq<char>;

/// Builds `JsonRpc::success(id, {key: value})` and prints it with
/// `serde_json::to_string`. The contract names the text, and claims that it
/// holds no newline: the compact printer writes no whitespace between tokens
/// and escapes control characters inside strings. Printing a value with
/// string keys cannot fail, so the empty fallback is never taken.
#[verifier::external_body]
fn print_success(id: &RpcId, key: &str, value: ResultValue) -> (s: String)
    ensures
        s@ == success_json(id@, key@, value),
        no_newline(s@),
{
    let id = match id {
        RpcId::Num(n) => Id::Num(*n),
        RpcId::Str(s) => Id::Str(s.clone()),
        RpcId::Null => Id::None(()),
    };
    let value = match value {
        ResultValue::Flag(b) => Value::Bool(b),
        ResultValue::Number(n) => Value::from(n),
    };
    let result = Value::Object(serde_json::Map::from_iter([(key.to_owned(), value)]));
    serde_json::to_string(&JsonRpc::success(id, &result)).unwrap_or_default()
}

/// Builds `JsonRpc::error(id, Error { code, message, data: None })` and
/// prints it with `serde_json::to_string`. The contract names the text, and
/// claims that it holds no newline (compact output, escaped strings).
#[verifier::external_body]
fn print_error(id: &RpcId, error: &RpcError) -> (s: String)
    ensures
        s@ == error_json(id@, error.code, error.message@),
        no_newline(s@),
{
    let id = match id {
        RpcId::Num(n) => Id::Num(*n),
        RpcId::Str(s) => Id::Str(s.clone()),
        RpcId::Null => Id::None(()),
    };
    let error = jsonrpc_lite::Error { code: error.code, message: error.message.clone(), data: None };
    serde_json::to_string(&JsonRpc::error(id, error)).unwrap_or_default()
}

/// The response text for a reply to the request with this id.
pub open spec fn reply_json(id: IdView, reply: ReplyView) -> Seq<char> {
    match reply {
        ReplyView::Success { key, value } => success_json(id, key, value),
        ReplyView::Failure(e) => error_json(id, e.code, e.message),
    }
}

/// Whether a text holds no newline character.
pub open spec fn no_newline(text: Seq<char>) -> bool {
    forall|i: int| 0 <= i < text.len() ==> text[i] != '\n'
}

/// The single-line response text for a reply: it holds no newline, so the
/// newline appended when it is written ends exactly one NDJSON frame.
pub fn render(id: &RpcId, reply: &Reply) -> (s: String)
    ensures
        s@ == reply_json(id@, reply@),
        no_newline(s@),
{
    match reply {
        Reply::Success { key, value } => print_success(id, key.as_str(), *value),
        Reply::Failure(e) => print_error(id, e),
    }
}

} // verus!
