//! The JSON-RPC 2.0 envelopes that travel over the socket.
//!
//! An outbound call is written as one JSON object. An inbound text is one of
//! three shapes, told apart by the members it has: a success reply, a server
//! notification, or an error reply. A text of no such shape is no envelope.

use vstd::prelude::*;
use crate::json::{
    copy_of, int_of, items_of, json_int, json_items, json_member, json_parse, json_quote,
    json_str, member, parse, quote, str_of,
};
use crate::text::{append_decimal, decimal};

verus! {

/// An outbound call. `id` and `params` are left out of the wire object when absent.
/// `params` is a JSON array already written out.
#[derive(Debug)]
pub struct Request<'a> {
    pub jsonrpc: &'a str,
    pub method: &'a str,
    pub id: Option<i64>,
    pub params: Option<&'a str>,
}

/// The failure object of an error reply.
#[derive(Debug, Clone, PartialEq, Eq)]
pub struct Error {
    pub code: i64,
    pub message: String,
}

/// One element of a notification's parameter list.
#[derive(Debug, Clone, PartialEq, Eq)]
pub struct NotificationParam {
    pub gid: String,
}

/// An inbound envelope.
#[derive(Debug)]
pub enum Response<I, R, N> {
    Resp { id: I, result: R },
    Notification { method: String, params: N },
    Error { id: I, error: Error },
}

/// The inbound envelope as this client reads it.
pub type Frame = Response<i64, serde_json::Value, Vec<NotificationParam>>;

/// The wire text of a call, given the JSON string literals of its version tag
/// and method name, its id and its parameter array.
pub open spec fn request_text(
    version: Seq<char>,
    method: Seq<char>,
    id: Option<int>,
    params: Option<Seq<char>>,
) -> Seq<char> {
    "{\"jsonrpc\":"@ + version + ",\"method\":"@ + method + (match id {
        Some(i) => ",\"id\":"@ + decimal(i),
        None => Seq::empty(),
    }) + (match params {
        Some(p) => ",\"params\":"@ + p,
        None => Seq::empty(),
    }) + "}"@
}

/// Writes the wire object of a call from parts that are JSON already.
pub fn frame_request(version: &str, method: &str, id: Option<i64>, params: Option<&str>) -> (r:
    String)
    ensures
        r@ == request_text(
            version@,
            method@,
            match id {
                Some(i) => Some(i as int),
                None => None,
            },
            match params {
                Some(p) => Some(p@),
                None => None,
            },
        ),
{
    let mut out = String::new();
    out.append("{\"jsonrpc\":");
    out.append(version);
    out.append(",\"method\":");
    out.append(method);
    let ghost head = out@;
    if let Some(i) = id {
        out.append(",\"id\":");
        append_decimal(&mut out, i);
    }
    let ghost mid = out@;
    if let Some(p) = params {
        out.append(",\"params\":");
        out.append(p);
    }
    out.append("}");
    proof {
        let id_part = match id {
            Some(i) => ",\"id\":"@ + decimal(i as int),
            None => Seq::<char>::empty(),
        };
        let params_part = match params {
            Some(p) => ",\"params\":"@ + p@,
            None => Seq::<char>::empty(),
        };
        assert(head =~= "{\"jsonrpc\":"@ + version@ + ",\"method\":"@ + method@);
        assert(mid =~= head + id_part);
        assert(out@ =~= mid + params_part + "}"@);
    }
    out
}

/// The wire text of a call from its plain parts: the version tag and the
/// method name are written as JSON strings first. Where one of them cannot be
/// written, the result is the message of that failure.
pub open spec fn envelope_text(
    version: Seq<char>,
    method: Seq<char>,
    id: Option<int>,
    params: Option<Seq<char>>,
) -> Result<Seq<char>, Seq<char>> {
    match json_quote(version) {
        Err(e) => Err(e),
        Ok(v) => match json_quote(method) {
            Err(e) => Err(e),
            Ok(m) => Ok(request_text(v, m, id, params)),
        },
    }
}

impl<'a> Request<'a> {
    /// The id as a mathematical integer.
    pub open spec fn spec_id(&self) -> Option<int> {
        match self.id {
            Some(i) => Some(i as int),
            None => None,
        }
    }

    /// The parameter array's text.
    pub open spec fn spec_params(&self) -> Option<Seq<char>> {
        match self.params {
            Some(p) => Some(p@),
            None => None,
        }
    }

    /// What `encode` returns: the wire text, or the message of the first
    /// string that could not be written as JSON.
    pub open spec fn spec_encode(&self) -> Result<Seq<char>, Seq<char>> {
        envelope_text(self.jsonrpc@, self.method@, self.spec_id(), self.spec_params())
    }

    /// The wire text of this call.
    pub fn encode(&self) -> (r: Result<String, crate::error::Error>)
        ensures
            match r {
                Ok(t) => self.spec_encode() == Ok::<Seq<char>, Seq<char>>(t@),
                Err(crate::error::Error::Encode(m)) => self.spec_encode() == Err::<
                    Seq<char>,
                    Seq<char>,
                >(m@),
                Err(_) => false,
            },
    {
        let version = match quote(self.jsonrpc) {
            Ok(t) => t,
            Err(m) => {
                return Err(crate::error::Error::Encode(m));
            },
        };
        let method = match quote(self.method) {
            Ok(t) => t,
            Err(m) => {
                return Err(crate::error::Error::Encode(m));
            },
        };
        Ok(frame_request(version.as_str(), method.as_str(), self.id, self.params))
    }
}

/// The integer member of a document under a key.
pub open spec fn member_int(v: serde_json::Value, key: Seq<char>) -> Option<i64> {
    match json_member(v, key) {
        Some(m) => json_int(m),
        None => None,
    }
}

/// The string member of a document under a key.
pub open spec fn member_str(v: serde_json::Value, key: Seq<char>) -> Option<Seq<char>> {
    match json_member(v, key) {
        Some(m) => json_str(m),
        None => None,
    }
}

/// The array member of a document under a key.
pub open spec fn member_items(v: serde_json::Value, key: Seq<char>) -> Option<
    Seq<serde_json::Value>,
> {
    match json_member(v, key) {
        Some(m) => json_items(m),
        None => None,
    }
}

/// A success reply: an integer `id` and a `result`, whatever it is.
pub open spec fn is_reply(v: serde_json::Value) -> bool {
    member_int(v, "id"@) is Some && json_member(v, "result"@) is Some
}

/// Every element is an object with a string `gid`.
pub open spec fn all_have_gid(items: Seq<serde_json::Value>) -> bool {
    forall|i: int| 0 <= i < items.len() ==> (#[trigger] member_str(items[i], "gid"@)) is Some
}

/// The `gid` of each element, in order.
pub open spec fn gids_of(items: Seq<serde_json::Value>) -> Seq<Seq<char>> {
    Seq::new(items.len(), |i: int| member_str(items[i], "gid"@).unwrap())
}

/// A server notification: a string `method` and a `params` array whose
/// elements each have a string `gid`.
pub open spec fn is_push(v: serde_json::Value) -> bool {
    member_str(v, "method"@) is Some && member_items(v, "params"@) is Some && all_have_gid(
        member_items(v, "params"@).unwrap(),
    )
}

/// An error reply: an integer `id` and an `error` with an integer `code` and a
/// string `message`.
pub open spec fn is_failure(v: serde_json::Value) -> bool {
    member_int(v, "id"@) is Some && json_member(v, "error"@) is Some && member_int(
        json_member(v, "error"@).unwrap(),
        "code"@,
    ) is Some && member_str(json_member(v, "error"@).unwrap(), "message"@) is Some
}

/// The `gid`s that a parameter list holds, in order.
pub open spec fn param_gids(params: Seq<NotificationParam>) -> Seq<Seq<char>> {
    Seq::new(params.len(), |i: int| params[i].gid@)
}

/// Whether `frame` is what the document `v` is read as. The shapes are tried
/// in the order success reply, notification, error reply; the first that fits
/// decides, and a document that fits none is no envelope.
pub open spec fn reads_as(v: serde_json::Value, frame: Option<Frame>) -> bool {
    match frame {
        Some(Response::Resp { id, result }) => {
            &&& is_reply(v)
            &&& Some(id) == member_int(v, "id"@)
            &&& Some(result) == json_member(v, "result"@)
        },
        Some(Response::Notification { method, params }) => {
            &&& !is_reply(v)
            &&& is_push(v)
            &&& Some(method@) == member_str(v, "method"@)
            &&& param_gids(params@) == gids_of(member_items(v, "params"@).unwrap())
        },
        Some(Response::Error { id, error }) => {
            &&& !is_reply(v)
            &&& !is_push(v)
            &&& is_failure(v)
            &&& Some(id) == member_int(v, "id"@)
            &&& Some(error.code) == member_int(json_member(v, "error"@).unwrap(), "code"@)
            &&& Some(error.message@) == member_str(
                json_member(v, "error"@).unwrap(),
                "message"@,
            )
        },
        None => !is_reply(v) && !is_push(v) && !is_failure(v),
    }
}

fn int_member(v: &serde_json::Value, key: &str) -> (r: Option<i64>)
    ensures
        r == member_int(*v, key@),
{
    match member(v, key) {
        Some(m) => int_of(m),
        None => None,
    }
}

fn str_member(v: &serde_json::Value, key: &str) -> (r: Option<String>)
    ensures
        match r {
            Some(s) => member_str(*v, key@) == Some(s@),
            None => member_str(*v, key@) is None,
        },
{
    match member(v, key) {
        Some(m) => str_of(m),
        None => None,
    }
}

/// The parameter list of a notification, where every element has a `gid`.
fn read_params(items: &Vec<serde_json::Value>) -> (r: Option<Vec<NotificationParam>>)
    ensures
        match r {
            Some(params) => all_have_gid(items@) && param_gids(params@) == gids_of(items@),
            None => !all_have_gid(items@),
        },
{
    let mut params: Vec<NotificationParam> = Vec::new();
    let mut i: usize = 0;
    while i < items.len()
        invariant
            i <= items.len(),
            params.len() == i,
            forall|j: int| 0 <= j < i ==> (#[trigger] member_str(items[j], "gid"@)) is Some,
            forall|j: int|
                0 <= j < i ==> (#[trigger] params[j]).gid@ == member_str(items[j], "gid"@).unwrap(),
        decreases items.len() - i,
    {
        match str_member(&items[i], "gid") {
            Some(gid) => {
                params.push(NotificationParam { gid });
            },
            None => {
                return None;
            },
        }
        i += 1;
    }
    assert(param_gids(params@) =~= gids_of(items@));
    Some(params)
}

fn read_push(v: &serde_json::Value) -> (r: Option<Frame>)
    ensures
        match r {
            Some(Response::Notification { method, params }) => {
                &&& is_push(*v)
                &&& Some(method@) == member_str(*v, "method"@)
                &&& param_gids(params@) == gids_of(member_items(*v, "params"@).unwrap())
            },
            Some(_) => false,
            None => !is_push(*v),
        },
{
    let method = match str_member(v, "method") {
        Some(m) => m,
        None => {
            return None;
        },
    };
    let items = match member(v, "params") {
        Some(m) => match items_of(m) {
            Some(items) => items,
            None => {
                return None;
            },
        },
        None => {
            return None;
        },
    };
    match read_params(items) {
        Some(params) => Some(Response::Notification { method, params }),
        None => None,
    }
}

fn read_failure(v: &serde_json::Value) -> (r: Option<Frame>)
    ensures
        match r {
            Some(Response::Error { id, error }) => {
                &&& is_failure(*v)
                &&& Some(id) == member_int(*v, "id"@)
                &&& Some(error.code) == member_int(json_member(*v, "error"@).unwrap(), "code"@)
                &&& Some(error.message@) == member_str(
                    json_member(*v, "error"@).unwrap(),
                    "message"@,
                )
            },
            Some(_) => false,
            None => !is_failure(*v),
        },
{
    let id = match int_member(v, "id") {
        Some(id) => id,
        None => {
            return None;
        },
    };
    let error = match member(v, "error") {
        Some(e) => e,
        None => {
            return None;
        },
    };
    let code = match int_member(error, "code") {
        Some(c) => c,
        None => {
            return None;
        },
    };
    match str_member(error, "message") {
        Some(message) => Some(Response::Error { id, error: Error { code, message } }),
        None => None,
    }
}

/// Reads a parsed document as an envelope.
pub fn classify(v: &serde_json::Value) -> (r: Option<Frame>)
    ensures
        reads_as(*v, r),
{
    if let Some(id) = int_member(v, "id") {
        if let Some(result) = member(v, "result") {
            return Some(Response::Resp { id, result: copy_of(result) });
        }
    }
    match read_push(v) {
        Some(frame) => Some(frame),
        None => read_failure(v),
    }
}

/// Whether `frame` is what an inbound text is read as: the envelope of the
/// document it parses to, and nothing where it does not parse.
pub open spec fn decodes_to(text: Seq<char>, frame: Option<Frame>) -> bool {
    match json_parse(text) {
        Some(v) => reads_as(v, frame),
        None => frame is None,
    }
}

/// Reads an inbound text as an envelope.
pub fn decode(text: &str) -> (r: Option<Frame>)
    ensures
        decodes_to(text@, r),
{
    match parse(text) {
        Some(v) => classify(&v),
        None => None,
    }
}

} // verus!
