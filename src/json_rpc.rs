//! The JSON-RPC request and response envelopes, method dispatch, and the
//! replies of the two HTTP routes.
use crate::json::{decimal, lemma_escaped_plain, json_int, json_string, push_json_int, push_json_string};
use crate::text::{char_count, char_count_of};
use vstd::prelude::*;

verus! {

/// The error code of a request that names no known method.
pub const METHOD_NOT_FOUND: i32 = -32601;

/// The parameters of `char_count`.
#[derive(Debug)]
pub struct CharCountParams {
    pub some_string: String,
}

/// A JSON-RPC request.
#[derive(Debug)]
pub struct CharCountRequest {
    pub id: String,
    pub jsonrpc: String,
    pub method: String,
    pub params: CharCountParams,
}

/// The envelope of a successful `char_count` call.
#[derive(Debug)]
pub struct CharCountResponse {
    pub id: String,
    pub jsonrpc: String,
    pub result: CharCountResult,
}

/// The result of a `char_count` call.
#[derive(Debug)]
pub struct CharCountResult {
    pub count: i32,
}

/// The error carried by a reply to an unknown method.
#[derive(Debug)]
pub struct MethodNotFoundError {
    pub code: i32,
    pub message: String,
}

/// The envelope of a reply to an unknown method.
#[derive(Debug)]
pub struct MethodNotFoundErrorResponse {
    pub error: MethodNotFoundError,
    pub id: String,
    pub jsonrpc: String,
}

/// The methods this service answers.
#[derive(Debug, Clone, Copy, PartialEq, Eq, Structural)]
pub enum RpcMethod {
    CharCount,
}

/// Either envelope that a request can produce.
#[derive(Debug)]
pub enum RpcResponse {
    Success(CharCountResponse),
    MethodNotFound(MethodNotFoundErrorResponse),
}

/// What an HTTP route answers: a status code and a body.
#[derive(Debug)]
pub struct HttpReply {
    pub status: u16,
    pub body: String,
}

/// The method that `name` calls, if any.
pub open spec fn method_of(name: Seq<char>) -> Option<RpcMethod> {
    if name == "char_count"@ {
        Some(RpcMethod::CharCount)
    } else {
        None
    }
}

/// The JSON text of a success envelope.
pub open spec fn success_json(id: Seq<char>, jsonrpc: Seq<char>, count: int) -> Seq<char> {
    "{\"id\":"@ + json_string(id) + ",\"jsonrpc\":"@ + json_string(jsonrpc)
        + ",\"result\":{\"count\":"@ + json_int(count) + "}}"@
}

/// The JSON text of an error envelope.
pub open spec fn error_json(code: int, message: Seq<char>, id: Seq<char>, jsonrpc: Seq<char>) -> Seq<
    char,
> {
    "{\"error\":{\"code\":"@ + json_int(code) + ",\"message\":"@ + json_string(message)
        + "},\"id\":"@ + json_string(id) + ",\"jsonrpc\":"@ + json_string(jsonrpc) + "}"@
}

/// The JSON text that answers a request with these fields.
pub open spec fn reply_json(
    id: Seq<char>,
    jsonrpc: Seq<char>,
    method: Seq<char>,
    some_string: Seq<char>,
) -> Seq<char> {
    match method_of(method) {
        Some(RpcMethod::CharCount) => success_json(id, jsonrpc, char_count_of(some_string) as int),
        None => error_json(METHOD_NOT_FOUND as int, "Method not found"@, id, jsonrpc),
    }
}

/// Whatever the parameters, a request for an unknown method is answered with
/// exactly `{"error":{"code":-32601,"message":"Method not found"},"id":..,"jsonrpc":..}`,
/// carrying the request's own `id` and `jsonrpc`.
pub proof fn lemma_unknown_method_envelope(
    id: Seq<char>,
    jsonrpc: Seq<char>,
    method: Seq<char>,
    some_string: Seq<char>,
)
    requires
        method_of(method) is None,
    ensures
        reply_json(id, jsonrpc, method, some_string) == "{\"error\":{\"code\":-32601,\"message\":\"Method not found\"},\"id\":"@
            + json_string(id) + ",\"jsonrpc\":"@ + json_string(jsonrpc) + "}"@,
{
    reveal_strlit("Method not found");
    reveal_strlit("{\"error\":{\"code\":");
    reveal_strlit(",\"message\":");
    reveal_strlit("},\"id\":");
    reveal_strlit("{\"error\":{\"code\":-32601,\"message\":\"Method not found\"},\"id\":");
    reveal_strlit("0123456789abcdef");
    let message = "Method not found"@;
    lemma_escaped_plain(message);
    assert(decimal(32601) =~= seq!['3', '2', '6', '0', '1']) by {
        reveal_with_fuel(decimal, 6);
    }
    assert("{\"error\":{\"code\":"@ + json_int(METHOD_NOT_FOUND as int) + ",\"message\":"@
        + json_string(message) + "},\"id\":"@
        =~= "{\"error\":{\"code\":-32601,\"message\":\"Method not found\"},\"id\":"@);
    assert(reply_json(id, jsonrpc, method, some_string) =~= "{\"error\":{\"code\":-32601,\"message\":\"Method not found\"},\"id\":"@
        + json_string(id) + ",\"jsonrpc\":"@ + json_string(jsonrpc) + "}"@);
}

/// Looks up the method that `name` calls.
pub fn lookup_method(name: &str) -> (r: Option<RpcMethod>)
    ensures
        r == method_of(name@),
{
    let known = "char_count".to_owned();
    let given = name.to_owned();
    if given == known {
        Some(RpcMethod::CharCount)
    } else {
        None
    }
}

impl CharCountResponse {
    /// Serialises the envelope as `{"id":..,"jsonrpc":..,"result":{"count":..}}`.
    pub fn to_json(&self) -> (r: String)
        ensures
            r@ == success_json(self.id@, self.jsonrpc@, self.result.count as int),
    {
        let mut out = String::new();
        out.append("{\"id\":");
        push_json_string(&mut out, self.id.as_str());
        out.append(",\"jsonrpc\":");
        push_json_string(&mut out, self.jsonrpc.as_str());
        out.append(",\"result\":{\"count\":");
        push_json_int(&mut out, self.result.count);
        out.append("}}");
        assert(out@ =~= success_json(self.id@, self.jsonrpc@, self.result.count as int));
        out
    }
}

impl MethodNotFoundErrorResponse {
    /// Serialises the envelope as
    /// `{"error":{"code":..,"message":..},"id":..,"jsonrpc":..}`.
    pub fn to_json(&self) -> (r: String)
        ensures
            r@ == error_json(
                self.error.code as int,
                self.error.message@,
                self.id@,
                self.jsonrpc@,
            ),
    {
        let mut out = String::new();
        out.append("{\"error\":{\"code\":");
        push_json_int(&mut out, self.error.code);
        out.append(",\"message\":");
        push_json_string(&mut out, self.error.message.as_str());
        out.append("},\"id\":");
        push_json_string(&mut out, self.id.as_str());
        out.append(",\"jsonrpc\":");
        push_json_string(&mut out, self.jsonrpc.as_str());
        out.append("}");
        assert(out@ =~= error_json(
            self.error.code as int,
            self.error.message@,
            self.id@,
            self.jsonrpc@,
        ));
        out
    }
}

impl RpcResponse {
    /// Serialises whichever envelope this is.
    pub fn to_json(&self) -> (r: String)
        ensures
            r@ == match self {
                RpcResponse::Success(s) => success_json(s.id@, s.jsonrpc@, s.result.count as int),
                RpcResponse::MethodNotFound(e) => error_json(
                    e.error.code as int,
                    e.error.message@,
                    e.id@,
                    e.jsonrpc@,
                ),
            },
    {
        match self {
            RpcResponse::Success(s) => s.to_json(),
            RpcResponse::MethodNotFound(e) => e.to_json(),
        }
    }
}

/// The success envelope for `req` once its count is known.
pub fn char_count_response(req: &CharCountRequest, count: usize) -> (r: CharCountResponse)
    requires
        count <= i32::MAX,
    ensures
        r.id@ == req.id@,
        r.jsonrpc@ == req.jsonrpc@,
        r.result.count as int == count as int,
{
    CharCountResponse {
        id: req.id.clone(),
        jsonrpc: req.jsonrpc.clone(),
        result: CharCountResult { count: count as i32 },
    }
}

/// The error envelope for a request whose method is unknown.
pub fn method_not_found(req: &CharCountRequest) -> (r: MethodNotFoundErrorResponse)
    ensures
        r.id@ == req.id@,
        r.jsonrpc@ == req.jsonrpc@,
        r.error.code == METHOD_NOT_FOUND,
        r.error.message@ == "Method not found"@,
{
    MethodNotFoundErrorResponse {
        error: MethodNotFoundError {
            code: METHOD_NOT_FOUND,
            message: "Method not found".to_owned(),
        },
        id: req.id.clone(),
        jsonrpc: req.jsonrpc.clone(),
    }
}

/// Answers one request: `char_count` counts the user-perceived characters of
/// the trimmed `some_string`; any other method is not found. `id` and
/// `jsonrpc` are copied from the request either way.
pub fn dispatch(req: &CharCountRequest) -> (r: RpcResponse)
    requires
        req.params.some_string@.len() <= i32::MAX,
    ensures
        match r {
            RpcResponse::Success(s) => {
                &&& method_of(req.method@) == Some(RpcMethod::CharCount)
                &&& s.id@ == req.id@
                &&& s.jsonrpc@ == req.jsonrpc@
                &&& s.result.count as int == char_count_of(req.params.some_string@)
            },
            RpcResponse::MethodNotFound(e) => {
                &&& method_of(req.method@) is None
                &&& e.id@ == req.id@
                &&& e.jsonrpc@ == req.jsonrpc@
                &&& e.error.code == METHOD_NOT_FOUND
                &&& e.error.message@ == "Method not found"@
            },
        },
{
    match lookup_method(req.method.as_str()) {
        Some(RpcMethod::CharCount) => {
            let count = char_count(req.params.some_string.as_str());
            RpcResponse::Success(char_count_response(req, count))
        },
        None => RpcResponse::MethodNotFound(method_not_found(req)),
    }
}

/// The reply of `POST /`: status 200 and the JSON text of the envelope that
/// answers `req`, success or error alike.
pub fn json_rpc_handler(req: &CharCountRequest) -> (r: HttpReply)
    requires
        req.params.some_string@.len() <= i32::MAX,
    ensures
        r.status == 200,
        r.body@ == reply_json(req.id@, req.jsonrpc@, req.method@, req.params.some_string@),
{
    let response = dispatch(req);
    let body = response.to_json();
    HttpReply { status: 200, body }
}

/// The reply of `GET /health_check`: status 200 and an empty body.
pub fn health_check() -> (r: HttpReply)
    ensures
        r.status == 200,
        r.body@.len() == 0,
{
    HttpReply { status: 200, body: String::new() }
}

} // verus!
