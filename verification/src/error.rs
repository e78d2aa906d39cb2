//! What a call can fail with.

use vstd::prelude::*;
use crate::jsonrpc;
use crate::text::{append_decimal, decimal};

verus! {

/// A failure that the daemon reported for a call.
#[derive(Debug, Clone, PartialEq, Eq)]
pub struct RpcError {
    pub code: i64,
    pub message: String,
}

/// The text that `RpcError::to_text` gives for a code and a message.
pub open spec fn rpc_error_text(code: int, message: Seq<char>) -> Seq<char> {
    "RpcError: {\"code\": "@ + decimal(code) + ", \"message\": \""@ + message + "\"}"@
}

impl RpcError {
    /// The failure as a line of text, for logs and messages.
    pub fn to_text(&self) -> (r: String)
        ensures
            r@ == rpc_error_text(self.code as int, self.message@),
    {
        let mut out = String::new();
        out.append("RpcError: {\"code\": ");
        append_decimal(&mut out, self.code);
        out.append(", \"message\": \"");
        out.append(self.message.as_str());
        out.append("\"}");
        assert(out@ =~= rpc_error_text(self.code as int, self.message@));
        out
    }
}

/// Why a call, or the connection attempt, failed.
#[derive(Debug, Clone, PartialEq, Eq)]
pub enum Error {
    /// The daemon answered the call with a failure.
    Rpc(RpcError),
    /// The daemon's result did not have the shape that the operation expects.
    Decode(String),
    /// The operation's parameters could not be written as JSON.
    Encode(String),
    /// The first connection attempt failed.
    Connect(String),
    /// The request could not be handed to the connection task.
    ChannelSend,
    /// The connection task gave the request up: the connection was lost, or
    /// the task has stopped, before a reply came.
    ChannelRecv,
    /// The socket failed.
    Websocket(String),
}

impl From<jsonrpc::Error> for Error {
    fn from(err: jsonrpc::Error) -> (r: Self) {
        Error::Rpc(RpcError { code: err.code, message: err.message })
    }
}

impl vstd::std_specs::convert::FromSpecImpl<jsonrpc::Error> for Error {
    open spec fn obeys_from_spec() -> bool {
        true
    }

    open spec fn from_spec(err: jsonrpc::Error) -> Self {
        Error::Rpc(RpcError { code: err.code, message: err.message })
    }
}

} // verus!
