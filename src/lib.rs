//! A small JSON-RPC service core: one method, `char_count`, which counts the
//! user-perceived characters of a trimmed string, and a liveness check.
pub mod json;
pub mod json_rpc;
pub mod startup;
pub mod text;

pub use json_rpc::{
    dispatch, health_check, json_rpc_handler, lookup_method, CharCountParams, CharCountRequest,
    CharCountResponse, CharCountResult, HttpReply, MethodNotFoundError,
    MethodNotFoundErrorResponse, RpcMethod, RpcResponse,
};
pub use startup::ApplicationBaseUrl;
pub use text::char_count;
