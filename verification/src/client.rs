//! The caller's side of a call: what is handed to the connection task, and
//! what the caller makes of the answer.

use vstd::prelude::*;
use crate::call::{token_params, token_view, wire_params, AddUri, Call};
use crate::error::{Error, RpcError};
use crate::params::{encode_params, params_json, texts, ParamView};
use crate::ws::{RpcOutcome, RpcRequest};

verus! {

/// Whether `request` is what goes to the connection task for a call: the
/// operation's method name, the caller's slot, and the parameter list as JSON
/// where the operation declares one.
pub open spec fn carries<C: Call, T>(
    request: RpcRequest<T>,
    call: C,
    token: Option<Seq<char>>,
    handler: T,
) -> bool {
    &&& request.method@ == call.spec_method()
    &&& request.handler == handler
    &&& match wire_params(call, token) {
        Some(params) => request.params matches Some(text) && params_json(params) == Ok::<
            Seq<char>,
            Seq<char>,
        >(text@),
        None => request.params is None,
    }
}

/// Makes the request for a call. The token, if the client has one, goes
/// before the operation's own parameters; an operation that declares no
/// parameter list is sent without one, token or not. The call fails here, and
/// nothing is sent, where its parameters cannot be written as JSON.
pub fn request_for<C: Call, T>(call: C, token: Option<&str>, handler: T) -> (r: Result<
    RpcRequest<T>,
    Error,
>)
    ensures
        match r {
            Ok(request) => carries(request, call, token_view(token), handler),
            Err(Error::Encode(message)) => wire_params(call, token_view(token)) matches Some(
                params,
            ) && params_json(params) == Err::<Seq<char>, Seq<char>>(message@),
            Err(_) => false,
        },
{
    let method = call.method();
    let params = match call.to_params(token) {
        Some(params) => {
            let list = params.serialize();
            match encode_params(&list) {
                Ok(text) => Some(text),
                Err(message) => {
                    return Err(Error::Encode(message));
                },
            }
        },
        None => None,
    };
    Ok(RpcRequest { params, method, handler })
}

/// What a caller makes of the answer to its call. `None` stands for a slot
/// that was dropped unanswered: the connection was lost, or the task ended,
/// while the call was outstanding.
pub open spec fn spec_reply_result(received: Option<RpcOutcome>) -> Result<
    serde_json::Value,
    Error,
> {
    match received {
        Some(RpcOutcome::Success(value)) => Ok(value),
        Some(RpcOutcome::Error(error)) => Err(
            Error::Rpc(RpcError { code: error.code, message: error.message }),
        ),
        None => Err(Error::ChannelRecv),
    }
}

/// Turns the answer to a call into the call's result: the daemon's result
/// document, the failure that the daemon reported, or the loss of the call.
pub fn reply_result(received: Option<RpcOutcome>) -> (r: Result<serde_json::Value, Error>)
    ensures
        r == spec_reply_result(received),
{
    match received {
        Some(RpcOutcome::Success(value)) => Ok(value),
        Some(RpcOutcome::Error(error)) => Err(Error::from(error)),
        None => Err(Error::ChannelRecv),
    }
}

/// The token is the first parameter of every call that has a parameter list,
/// and the operation's own parameters follow it unchanged.
pub proof fn law_token_goes_first<C: Call>(call: C, token: Seq<char>)
    requires
        call.spec_sends_params(),
    ensures
        wire_params(call, Some(token)) matches Some(params) && params.len()
            == call.spec_params().len() + 1 && params[0] == ParamView::Text(token)
            && params.subrange(1, params.len() as int) == call.spec_params(),
        wire_params(call, None) == Some(call.spec_params()),
{
    let params = wire_params(call, Some(token)).unwrap();
    assert(params.subrange(1, params.len() as int) =~= call.spec_params());
    assert(token_params(None) + call.spec_params() =~= call.spec_params());
}

/// An operation that declares no parameter list is sent without one, whether
/// or not the client has a token.
pub proof fn law_no_list_without_parameters<C: Call>(call: C, token: Option<Seq<char>>)
    requires
        !call.spec_sends_params(),
    ensures
        wire_params(call, token) is None,
{
}

/// A download sends a parameter for each thing it sets and for nothing else:
/// the URI list always, the options and the position only where they are set.
/// Nothing stands in for what is left out, so with neither set the list holds
/// the URI list alone.
pub proof fn law_unset_parameters_are_left_out(call: AddUri)
    ensures
        call.spec_params().len() == 1 + (if call.options is Some {
            1int
        } else {
            0int
        }) + (if call.position is Some {
            1int
        } else {
            0int
        }),
        call.spec_params()[0] == ParamView::TextList(texts(call.uris@)),
        call.options is None && call.position is None ==> call.spec_params() == seq![
            ParamView::TextList(texts(call.uris@)),
        ],
{
    if call.options is None && call.position is None {
        assert(call.spec_params() =~= seq![ParamView::TextList(texts(call.uris@))]);
    }
}

} // verus!
