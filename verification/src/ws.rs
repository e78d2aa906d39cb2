//! What the connection carries besides calls: the daemon's notifications, the
//! connection's metadata, and the two messages that a caller and the
//! connection task exchange for one call.

use vstd::prelude::*;
use crate::jsonrpc;
use crate::jsonrpc::NotificationParam;
use crate::text::same_text;

verus! {

/// An event that the daemon pushes, with the GID of the download it is about.
#[derive(Debug, Clone, PartialEq, Eq)]
pub enum Notification {
    DownloadStart(String),
    DownloadPause(String),
    DownloadStop(String),
    DownloadComplete(String),
    DownloadError(String),
    BtDownloadComplete(String),
}

/// Whether a wire method name is that of a notification.
pub open spec fn is_event_name(method: Seq<char>) -> bool {
    ||| method == "aria2.onDownloadStart"@
    ||| method == "aria2.onDownloadPause"@
    ||| method == "aria2.onDownloadStop"@
    ||| method == "aria2.onDownloadComplete"@
    ||| method == "aria2.onDownloadError"@
    ||| method == "aria2.onBtDownloadComplete"@
}

/// The notification that a wire method name and a GID make.
pub open spec fn event_of(method: Seq<char>, gid: String) -> Notification {
    if method == "aria2.onDownloadStart"@ {
        Notification::DownloadStart(gid)
    } else if method == "aria2.onDownloadPause"@ {
        Notification::DownloadPause(gid)
    } else if method == "aria2.onDownloadStop"@ {
        Notification::DownloadStop(gid)
    } else if method == "aria2.onDownloadComplete"@ {
        Notification::DownloadComplete(gid)
    } else if method == "aria2.onDownloadError"@ {
        Notification::DownloadError(gid)
    } else {
        Notification::BtDownloadComplete(gid)
    }
}

/// The notifications that one frame makes: one for each element of its
/// parameter list, in the order of the list, and none where the method name
/// is not that of a notification.
pub open spec fn events_of(method: Seq<char>, params: Seq<NotificationParam>) -> Seq<
    Notification,
> {
    if is_event_name(method) {
        Seq::new(params.len(), |i: int| event_of(method, params[i].gid))
    } else {
        Seq::empty()
    }
}

impl Notification {
    /// The notification for a wire method name, or nothing where the name is
    /// not that of a notification.
    pub fn parse(method: &str, gid: String) -> (r: Option<Self>)
        ensures
            r == (if is_event_name(method@) {
                Some(event_of(method@, gid))
            } else {
                None
            }),
    {
        if same_text(method, "aria2.onDownloadStart") {
            Some(Self::DownloadStart(gid))
        } else if same_text(method, "aria2.onDownloadPause") {
            Some(Self::DownloadPause(gid))
        } else if same_text(method, "aria2.onDownloadStop") {
            Some(Self::DownloadStop(gid))
        } else if same_text(method, "aria2.onDownloadComplete") {
            Some(Self::DownloadComplete(gid))
        } else if same_text(method, "aria2.onDownloadError") {
            Some(Self::DownloadError(gid))
        } else if same_text(method, "aria2.onBtDownloadComplete") {
            Some(Self::BtDownloadComplete(gid))
        } else {
            None
        }
    }

    /// The notification for a wire method name. The name is one of the six
    /// that the daemon pushes.
    pub fn new(method: &str, gid: String) -> (r: Self)
        requires
            is_event_name(method@),
        ensures
            r == event_of(method@, gid),
    {
        if same_text(method, "aria2.onDownloadStart") {
            Self::DownloadStart(gid)
        } else if same_text(method, "aria2.onDownloadPause") {
            Self::DownloadPause(gid)
        } else if same_text(method, "aria2.onDownloadStop") {
            Self::DownloadStop(gid)
        } else if same_text(method, "aria2.onDownloadComplete") {
            Self::DownloadComplete(gid)
        } else if same_text(method, "aria2.onDownloadError") {
            Self::DownloadError(gid)
        } else {
            Self::BtDownloadComplete(gid)
        }
    }

    /// The GID of the download that the notification is about.
    pub fn gid(&self) -> (r: &String)
        ensures
            *r == self.spec_gid(),
    {
        match self {
            Self::DownloadStart(gid) => gid,
            Self::DownloadPause(gid) => gid,
            Self::DownloadStop(gid) => gid,
            Self::DownloadComplete(gid) => gid,
            Self::DownloadError(gid) => gid,
            Self::BtDownloadComplete(gid) => gid,
        }
    }

    /// The GID that the notification carries.
    pub open spec fn spec_gid(&self) -> String {
        match *self {
            Self::DownloadStart(gid) => gid,
            Self::DownloadPause(gid) => gid,
            Self::DownloadStop(gid) => gid,
            Self::DownloadComplete(gid) => gid,
            Self::DownloadError(gid) => gid,
            Self::BtDownloadComplete(gid) => gid,
        }
    }

    /// The notifications of one frame, in the order of its parameter list.
    pub fn fan_out(method: &str, params: &Vec<NotificationParam>) -> (r: Vec<Self>)
        ensures
            r@ == events_of(method@, params@),
    {
        let mut out: Vec<Notification> = Vec::new();
        let mut i: usize = 0;
        while i < params.len()
            invariant
                i <= params.len(),
                out.len() == (if is_event_name(method@) {
                    i
                } else {
                    0
                }),
                forall|j: int| 0 <= j < out.len() ==> out[j] == event_of(method@, params[j].gid),
            decreases params.len() - i,
        {
            match Notification::parse(method, params[i].gid.clone()) {
                Some(event) => {
                    out.push(event);
                },
                None => {},
            }
            i += 1;
        }
        assert(out@ =~= events_of(method@, params@));
        out
    }
}

/// A frame with a known method name and `k` GIDs makes exactly `k`
/// notifications, the `i`-th of them about the `i`-th GID, all of the kind
/// that the method name stands for.
pub proof fn law_one_event_per_gid(method: Seq<char>, params: Seq<NotificationParam>)
    requires
        is_event_name(method),
    ensures
        events_of(method, params).len() == params.len(),
        forall|i: int|
            0 <= i < params.len() ==> (#[trigger] events_of(method, params)[i]) == event_of(
                method,
                params[i].gid,
            ) && events_of(method, params)[i].spec_gid() == params[i].gid,
{
}

/// A frame whose method name is not that of a notification makes none.
pub proof fn law_unknown_method_makes_no_event(method: Seq<char>, params: Seq<NotificationParam>)
    requires
        !is_event_name(method),
    ensures
        events_of(method, params).len() == 0,
{
}

/// Where the daemon listens, and the secret it expects. The secret is kept as
/// it goes over the wire, with its prefix.
#[derive(Debug, Clone, PartialEq, Eq)]
pub struct ConnectionMeta {
    pub url: String,
    pub token: Option<String>,
}

/// A secret as it goes over the wire.
pub open spec fn wire_token(secret: Seq<char>) -> Seq<char> {
    "token:"@ + secret
}

impl ConnectionMeta {
    /// The token as it goes over the wire, if a secret is configured.
    pub open spec fn spec_token(&self) -> Option<Seq<char>> {
        match self.token {
            Some(t) => Some(t@),
            None => None,
        }
    }

    /// The metadata of a connection to `url`, with an optional secret.
    pub fn new(url: &str, token: Option<&str>) -> (r: Self)
        ensures
            r.url@ == url@,
            r.spec_token() == (match token {
                Some(s) => Some(wire_token(s@)),
                None => None,
            }),
    {
        let token = match token {
            Some(s) => {
                let mut t = String::new();
                t.append("token:");
                t.append(s);
                assert(t@ =~= wire_token(s@));
                Some(t)
            },
            None => None,
        };
        ConnectionMeta { url: url.to_owned(), token }
    }
}

/// A call on its way to the connection task. `params` is the parameter array
/// as JSON text, absent where the operation declares none; `handler` is the
/// slot through which the caller is answered.
#[derive(Debug)]
pub struct RpcRequest<T> {
    pub params: Option<String>,
    pub method: &'static str,
    pub handler: T,
}

/// What the connection task answers a call with.
#[derive(Debug)]
pub enum RpcOutcome {
    Success(serde_json::Value),
    Error(jsonrpc::Error),
}

} // verus!
