//! The decisions of the connection task.
//!
//! One task owns the socket and the table of outstanding calls. It is driven
//! from outside: whoever runs it waits on the mailbox, the socket and the
//! clock, reports what happened as an [`Event`], and carries out the
//! [`Action`] that [`Actor::step`] answers with. The task is connected,
//! reconnecting or stopped:
//!
//! * connected, it gives each call the next id, remembers its reply slot and
//!   has the call written to the socket; it matches each reply to its slot by
//!   id alone, and turns each notification frame into its events;
//! * when a write times out, a read fails or the peer closes, every
//!   outstanding slot is dropped and the task reconnects, one bounded attempt
//!   after another, with a pause after each failure;
//! * it stops once both the callers and the subscriber are gone, which it
//!   looks at between events and before each connection attempt.
//!
//! Ids start at 2: the counter starts at 1 and is advanced before each use.

use vstd::prelude::*;
use crate::jsonrpc::{decode, decodes_to, envelope_text, Frame, Request, Response};
use crate::pending::PendingTable;
use crate::ws::{events_of, Notification, RpcOutcome, RpcRequest};

verus! {

/// How long a write to the socket may take.
pub const SEND_TIMEOUT_SECS: u64 = 10;

/// How long one connection attempt may take.
pub const CONNECT_TIMEOUT_SECS: u64 = 10;

/// How long the task pauses after a failed connection attempt.
pub const RETRY_DELAY_SECS: u64 = 10;

/// How many calls the mailbox holds before callers have to wait.
pub const MAILBOX_CAPACITY: usize = 32;

/// The value of the id counter before the first call.
pub const INITIAL_REQUEST_ID: i64 = 1;

/// The state of the connection task.
#[derive(Debug, Clone, Copy, PartialEq, Eq)]
pub enum Phase {
    Connected,
    Reconnecting,
    Stopped,
}

/// What the socket yielded.
#[derive(Debug, Clone, PartialEq, Eq)]
pub enum Incoming {
    /// A text message.
    Text(String),
    /// The peer's close message.
    Close,
    /// Any other message: binary, ping, pong.
    Other,
    /// A read error.
    Failed,
}

/// What happened outside the task.
#[derive(Debug)]
pub enum Event<T> {
    /// A look at both channels: whether every caller is gone, and whether the
    /// subscriber is.
    Liveness { calls_closed: bool, subscriber_closed: bool },
    /// A call arrived in the mailbox.
    Request(RpcRequest<T>),
    /// The last write did not finish in time.
    SendTimedOut,
    /// The socket yielded something.
    Message(Incoming),
    /// A connection attempt succeeded.
    ConnectOk,
    /// A connection attempt failed or ran out of time.
    ConnectFailed,
}

/// What the task wants done.
#[derive(Debug)]
pub enum Action<T> {
    /// Nothing: look at the channels again.
    Idle,
    /// Wait for the next call or message.
    Wait,
    /// Write this text to the socket, for at most so many seconds.
    Send { text: String, timeout_secs: u64 },
    /// Answer the caller behind this slot.
    Deliver { slot: T, outcome: RpcOutcome },
    /// Push these events to the subscriber, in this order, until a push fails;
    /// as a unit of work of its own.
    Notify(Vec<Notification>),
    /// Try to connect, for at most so many seconds.
    Connect { timeout_secs: u64 },
    /// Pause for so many seconds.
    Sleep { secs: u64 },
    /// End the task.
    Stop,
}

/// The task's state as mathematics: its phase, the id of the last call, and
/// the outstanding slots by id.
pub struct ActorView<T> {
    pub phase: Phase,
    pub request_id: i64,
    pub pending: Map<i64, T>,
}

impl<T> ActorView<T> {
    /// No outstanding call has an id that is still to come, and calls are
    /// outstanding only while connected.
    pub open spec fn wf(self) -> bool {
        &&& self.request_id >= INITIAL_REQUEST_ID
        &&& forall|id: i64| #[trigger] self.pending.contains_key(id) ==> id <= self.request_id
        &&& !(self.phase is Connected) ==> self.pending == Map::<i64, T>::empty()
    }

    /// The state after the connection is lost.
    pub open spec fn lost(self) -> Self {
        ActorView { phase: Phase::Reconnecting, request_id: self.request_id, pending: Map::empty() }
    }

    /// The state after the task has ended.
    pub open spec fn stopped(self) -> Self {
        ActorView { phase: Phase::Stopped, request_id: self.request_id, pending: Map::empty() }
    }

    /// The state with one slot taken out.
    pub open spec fn without(self, id: i64) -> Self {
        ActorView { phase: self.phase, request_id: self.request_id, pending: self.pending.remove(id) }
    }

    /// The state in another phase.
    pub open spec fn in_phase(self, phase: Phase) -> Self {
        ActorView { phase, request_id: self.request_id, pending: self.pending }
    }

    /// The state after a call took the next id.
    pub open spec fn with_call(self, slot: T) -> Self {
        ActorView {
            phase: self.phase,
            request_id: (self.request_id + 1) as i64,
            pending: self.pending.insert((self.request_id + 1) as i64, slot),
        }
    }
}

/// An event that does not concern the task in its phase: nothing changes. A
/// stopped task answers `Stop` to everything.
pub open spec fn unmoved<T>(pre: ActorView<T>, post: ActorView<T>, action: Action<T>) -> bool {
    &&& post == pre
    &&& action == (if pre.phase is Stopped {
        Action::<T>::Stop
    } else {
        Action::<T>::Idle
    })
}

/// A look at the channels. With both sides gone the task stops and drops what
/// is outstanding; with either side alive it goes on: a connected task waits
/// for the next event, a reconnecting one makes its next attempt.
pub open spec fn after_liveness<T>(
    pre: ActorView<T>,
    calls_closed: bool,
    subscriber_closed: bool,
    post: ActorView<T>,
    action: Action<T>,
) -> bool {
    if pre.phase is Stopped || (calls_closed && subscriber_closed) {
        post == pre.stopped() && action == Action::<T>::Stop
    } else {
        &&& post == pre
        &&& action == (if pre.phase is Connected {
            Action::<T>::Wait
        } else {
            Action::<T>::Connect { timeout_secs: CONNECT_TIMEOUT_SECS }
        })
    }
}

/// The parameter text of a call as characters.
pub open spec fn params_view(params: Option<String>) -> Option<Seq<char>> {
    match params {
        Some(p) => Some(p@),
        None => None,
    }
}

/// A call from the mailbox. A connected task gives it the next id, keeps its
/// slot under that id, and has its envelope sent; where the envelope cannot be
/// written nothing is sent, and the slot stays. A task in another phase takes
/// no calls: the request is dropped, and its caller finds the call abandoned.
pub open spec fn after_request<T>(
    pre: ActorView<T>,
    request: RpcRequest<T>,
    post: ActorView<T>,
    action: Action<T>,
) -> bool {
    if pre.phase is Connected {
        &&& post == pre.with_call(request.handler)
        &&& match envelope_text(
            "2.0"@,
            request.method@,
            Some(pre.request_id + 1),
            params_view(request.params),
        ) {
            Ok(t) => action matches Action::Send { text, timeout_secs } && text@ == t
                && timeout_secs == SEND_TIMEOUT_SECS,
            Err(_) => action == Action::<T>::Idle,
        }
    } else {
        unmoved(pre, post, action)
    }
}

/// The connection is lost while connected: every slot is dropped, and the
/// task reconnects.
pub open spec fn after_loss<T>(pre: ActorView<T>, post: ActorView<T>, action: Action<T>) -> bool {
    if pre.phase is Connected {
        post == pre.lost() && action == Action::<T>::Idle
    } else {
        unmoved(pre, post, action)
    }
}

/// A reply for `id`: the slot kept under that id leaves the table and is
/// answered; a reply whose id is not outstanding is discarded.
pub open spec fn settles<T>(
    pre: ActorView<T>,
    id: i64,
    outcome: RpcOutcome,
    post: ActorView<T>,
    action: Action<T>,
) -> bool {
    if pre.pending.contains_key(id) {
        post == pre.without(id) && action == (Action::Deliver { slot: pre.pending[id], outcome })
    } else {
        post == pre && action == Action::<T>::Idle
    }
}

/// An inbound envelope, or a text that was none.
pub open spec fn after_frame<T>(
    pre: ActorView<T>,
    frame: Option<Frame>,
    post: ActorView<T>,
    action: Action<T>,
) -> bool {
    match frame {
        Some(Response::Resp { id, result }) => settles(
            pre,
            id,
            RpcOutcome::Success(result),
            post,
            action,
        ),
        Some(Response::Error { id, error }) => settles(
            pre,
            id,
            RpcOutcome::Error(error),
            post,
            action,
        ),
        Some(Response::Notification { method, params }) => {
            &&& post == pre
            &&& action matches Action::Notify(events)
            &&& events@ == events_of(method@, params@)
        },
        None => post == pre && action == Action::<T>::Idle,
    }
}

/// An inbound text: it is handled as the envelope it decodes to.
pub open spec fn after_text<T>(
    pre: ActorView<T>,
    text: Seq<char>,
    post: ActorView<T>,
    action: Action<T>,
) -> bool {
    exists|frame: Option<Frame>| #[trigger]
        decodes_to(text, frame) && after_frame(pre, frame, post, action)
}

/// Something from the socket. A text is decoded and handled; a close message
/// or a read error is the loss of the connection; anything else is ignored.
pub open spec fn after_message<T>(
    pre: ActorView<T>,
    message: Incoming,
    post: ActorView<T>,
    action: Action<T>,
) -> bool {
    if pre.phase is Connected {
        match message {
            Incoming::Text(text) => after_text(pre, text@, post, action),
            Incoming::Close => after_loss(pre, post, action),
            Incoming::Failed => after_loss(pre, post, action),
            Incoming::Other => post == pre && action == Action::<T>::Idle,
        }
    } else {
        unmoved(pre, post, action)
    }
}

/// The end of a connection attempt: on success the task is connected again;
/// after a failure it pauses before the next attempt.
pub open spec fn after_attempt<T>(
    pre: ActorView<T>,
    connected: bool,
    post: ActorView<T>,
    action: Action<T>,
) -> bool {
    if pre.phase is Reconnecting {
        if connected {
            post == pre.in_phase(Phase::Connected) && action == Action::<T>::Idle
        } else {
            post == pre && action == (Action::<T>::Sleep { secs: RETRY_DELAY_SECS })
        }
    } else {
        unmoved(pre, post, action)
    }
}

/// Whether `post` and `action` are the task's answer to `event` in state `pre`.
pub open spec fn follows<T>(
    pre: ActorView<T>,
    event: Event<T>,
    post: ActorView<T>,
    action: Action<T>,
) -> bool {
    match event {
        Event::Liveness { calls_closed, subscriber_closed } => after_liveness(
            pre,
            calls_closed,
            subscriber_closed,
            post,
            action,
        ),
        Event::Request(request) => after_request(pre, request, post, action),
        Event::SendTimedOut => after_loss(pre, post, action),
        Event::Message(message) => after_message(pre, message, post, action),
        Event::ConnectOk => after_attempt(pre, true, post, action),
        Event::ConnectFailed => after_attempt(pre, false, post, action),
    }
}

/// Whether the task can take `event` in state `pre`: a call needs an id, and
/// the ids of a connection are not used twice.
pub open spec fn admits<T>(pre: ActorView<T>, event: Event<T>) -> bool {
    (event is Request && pre.phase is Connected) ==> pre.request_id < i64::MAX
}

/// The connection task's state. `T` is the reply slot of a call.
#[derive(Debug)]
pub struct Actor<T> {
    phase: Phase,
    request_id: i64,
    pending: PendingTable<T>,
}

impl<T> View for Actor<T> {
    type V = ActorView<T>;

    closed spec fn view(&self) -> ActorView<T> {
        ActorView { phase: self.phase, request_id: self.request_id, pending: self.pending@ }
    }
}

impl<T> Actor<T> {
    /// The state is consistent.
    pub open spec fn wf(&self) -> bool {
        self@.wf()
    }

    /// The task for a socket that has just been connected.
    pub fn new() -> (r: Self)
        ensures
            r.wf(),
            r@ == (ActorView::<T> {
                phase: Phase::Connected,
                request_id: INITIAL_REQUEST_ID,
                pending: Map::empty(),
            }),
    {
        Actor { phase: Phase::Connected, request_id: INITIAL_REQUEST_ID, pending: PendingTable::new() }
    }

    /// The task's phase.
    pub fn phase(&self) -> (r: Phase)
        ensures
            r == self@.phase,
    {
        self.phase
    }

    /// The id of the last call that was taken.
    pub fn request_id(&self) -> (r: i64)
        ensures
            r == self@.request_id,
    {
        self.request_id
    }

    /// Whether the call with this id waits for its reply.
    pub fn is_pending(&self, id: i64) -> (r: bool)
        ensures
            r == self@.pending.contains_key(id),
    {
        self.pending.contains(id)
    }

    /// How many calls wait for their reply.
    pub fn outstanding(&self) -> (r: usize)
        ensures
            r == self@.pending.len(),
    {
        self.pending.len()
    }

    /// Whether an id is left for another call.
    pub fn has_id_left(&self) -> (r: bool)
        ensures
            r == (self@.request_id < i64::MAX),
    {
        self.request_id < i64::MAX
    }

    fn ignore(&self) -> (action: Action<T>)
        ensures
            unmoved(self@, self@, action),
    {
        match self.phase {
            Phase::Stopped => Action::Stop,
            _ => Action::Idle,
        }
    }

    fn lose(&mut self) -> (action: Action<T>)
        requires
            old(self).wf(),
        ensures
            final(self).wf(),
            after_loss(old(self)@, final(self)@, action),
    {
        match self.phase {
            Phase::Connected => {
                self.pending.clear();
                self.phase = Phase::Reconnecting;
                Action::Idle
            },
            _ => self.ignore(),
        }
    }

    /// Looks at the two channels, between events and before each connection
    /// attempt.
    pub fn on_liveness(&mut self, calls_closed: bool, subscriber_closed: bool) -> (action: Action<T>)
        requires
            old(self).wf(),
        ensures
            final(self).wf(),
            after_liveness(old(self)@, calls_closed, subscriber_closed, final(self)@, action),
    {
        match self.phase {
            Phase::Stopped => {
                assert(self@ == self@.stopped());
                Action::Stop
            },
            Phase::Connected => {
                if calls_closed && subscriber_closed {
                    self.pending.clear();
                    self.phase = Phase::Stopped;
                    Action::Stop
                } else {
                    Action::Wait
                }
            },
            Phase::Reconnecting => {
                if calls_closed && subscriber_closed {
                    self.pending.clear();
                    self.phase = Phase::Stopped;
                    Action::Stop
                } else {
                    Action::Connect { timeout_secs: CONNECT_TIMEOUT_SECS }
                }
            },
        }
    }

    /// Takes a call from the mailbox.
    pub fn on_request(&mut self, request: RpcRequest<T>) -> (action: Action<T>)
        requires
            old(self).wf(),
            old(self)@.phase is Connected ==> old(self)@.request_id < i64::MAX,
        ensures
            final(self).wf(),
            after_request(old(self)@, request, final(self)@, action),
    {
        match self.phase {
            Phase::Connected => {
                let RpcRequest { params, method, handler } = request;
                let id = self.request_id + 1;
                assert(!self.pending@.contains_key(id)) by {
                    if old(self)@.pending.contains_key(id) {
                        assert(id <= old(self)@.request_id);
                    }
                }
                self.request_id = id;
                self.pending.insert(id, handler);
                assert(final(self)@ == old(self)@.with_call(handler));
                assert forall|k: i64| #[trigger]
                    final(self)@.pending.contains_key(k) implies k <= final(self)@.request_id by {
                    if k != id {
                        assert(old(self)@.pending.contains_key(k));
                    }
                }
                let envelope = Request {
                    jsonrpc: "2.0",
                    method,
                    id: Some(id),
                    params: match &params {
                        Some(p) => Some(p.as_str()),
                        None => None,
                    },
                };
                match envelope.encode() {
                    Ok(text) => Action::Send { text, timeout_secs: SEND_TIMEOUT_SECS },
                    Err(_) => Action::Idle,
                }
            },
            _ => self.ignore(),
        }
    }

    /// The last write did not finish in time: the connection is lost.
    pub fn on_send_timeout(&mut self) -> (action: Action<T>)
        requires
            old(self).wf(),
        ensures
            final(self).wf(),
            after_loss(old(self)@, final(self)@, action),
    {
        self.lose()
    }

    fn settle(&mut self, id: i64, outcome: RpcOutcome) -> (action: Action<T>)
        requires
            old(self).wf(),
        ensures
            final(self).wf(),
            settles(old(self)@, id, outcome, final(self)@, action),
    {
        match self.pending.resolve(id) {
            Some(slot) => {
                assert(final(self)@.pending =~= old(self)@.pending.remove(id));
                Action::Deliver { slot, outcome }
            },
            None => {
                assert(final(self)@.pending =~= old(self)@.pending);
                Action::Idle
            },
        }
    }

    /// Handles an inbound envelope, or a text that was none: a reply goes to
    /// the slot kept under its id, a notification becomes its events, and
    /// anything else is dropped.
    pub fn dispatch(&mut self, frame: Option<Frame>) -> (action: Action<T>)
        requires
            old(self).wf(),
        ensures
            final(self).wf(),
            after_frame(old(self)@, frame, final(self)@, action),
    {
        match frame {
            Some(Response::Resp { id, result }) => self.settle(id, RpcOutcome::Success(result)),
            Some(Response::Error { id, error }) => self.settle(id, RpcOutcome::Error(error)),
            Some(Response::Notification { method, params }) => Action::Notify(
                Notification::fan_out(method.as_str(), &params),
            ),
            None => Action::Idle,
        }
    }

    /// Handles an inbound text.
    pub fn handle_response(&mut self, text: &str) -> (action: Action<T>)
        requires
            old(self).wf(),
        ensures
            final(self).wf(),
            after_text(old(self)@, text@, final(self)@, action),
    {
        let frame = decode(text);
        let action = self.dispatch(frame);
        assert(decodes_to(text@, frame) && after_frame(old(self)@, frame, final(self)@, action));
        action
    }

    /// Handles what the socket yielded.
    pub fn on_message(&mut self, message: Incoming) -> (action: Action<T>)
        requires
            old(self).wf(),
        ensures
            final(self).wf(),
            after_message(old(self)@, message, final(self)@, action),
    {
        match self.phase {
            Phase::Connected => match message {
                Incoming::Text(text) => self.handle_response(text.as_str()),
                Incoming::Close => self.lose(),
                Incoming::Failed => self.lose(),
                Incoming::Other => Action::Idle,
            },
            _ => self.ignore(),
        }
    }

    /// Takes the end of a connection attempt.
    pub fn on_attempt(&mut self, connected: bool) -> (action: Action<T>)
        requires
            old(self).wf(),
        ensures
            final(self).wf(),
            after_attempt(old(self)@, connected, final(self)@, action),
    {
        match self.phase {
            Phase::Reconnecting => {
                if connected {
                    self.phase = Phase::Connected;
                    Action::Idle
                } else {
                    Action::Sleep { secs: RETRY_DELAY_SECS }
                }
            },
            _ => self.ignore(),
        }
    }

    /// Answers one event: the task's whole behaviour.
    pub fn step(&mut self, event: Event<T>) -> (action: Action<T>)
        requires
            old(self).wf(),
            admits(old(self)@, event),
        ensures
            final(self).wf(),
            follows(old(self)@, event, final(self)@, action),
    {
        match event {
            Event::Liveness { calls_closed, subscriber_closed } => self.on_liveness(
                calls_closed,
                subscriber_closed,
            ),
            Event::Request(request) => self.on_request(request),
            Event::SendTimedOut => self.on_send_timeout(),
            Event::Message(message) => self.on_message(message),
            Event::ConnectOk => self.on_attempt(true),
            Event::ConnectFailed => self.on_attempt(false),
        }
    }
}

/// A run of the task: `states[k]` and `actions[k]` answer `events[k]` in
/// `states[k - 1]`, starting from `pre`.
pub open spec fn runs<T>(
    pre: ActorView<T>,
    events: Seq<Event<T>>,
    states: Seq<ActorView<T>>,
    actions: Seq<Action<T>>,
) -> bool {
    &&& states.len() == events.len()
    &&& actions.len() == events.len()
    &&& forall|k: int|
        0 <= k < events.len() ==> {
            let before = if k == 0 {
                pre
            } else {
                states[k - 1]
            };
            admits(before, #[trigger] events[k]) && follows(before, events[k], states[k], actions[k])
        }
}

/// Whatever the event, a consistent state stays consistent, and the id
/// counter never goes back.
pub proof fn law_step_keeps_consistency<T>(
    pre: ActorView<T>,
    event: Event<T>,
    post: ActorView<T>,
    action: Action<T>,
)
    requires
        pre.wf(),
        admits(pre, event),
        follows(pre, event, post, action),
    ensures
        post.wf(),
        pre.request_id <= post.request_id,
{
    match event {
        Event::Request(request) => {
            if pre.phase is Connected {
                assert forall|id: i64| #[trigger] post.pending.contains_key(id) implies id
                    <= post.request_id by {
                    if id != post.request_id {
                        assert(pre.pending.contains_key(id));
                    }
                }
            }
        },
        Event::Message(Incoming::Text(text)) => {
            if pre.phase is Connected {
                let frame = choose|frame: Option<Frame>| #[trigger]
                    decodes_to(text@, frame) && after_frame(pre, frame, post, action);
                lemma_frame_keeps_consistency(pre, frame, post, action);
            }
        },
        _ => {},
    }
}

proof fn lemma_frame_keeps_consistency<T>(
    pre: ActorView<T>,
    frame: Option<Frame>,
    post: ActorView<T>,
    action: Action<T>,
)
    requires
        pre.wf(),
        after_frame(pre, frame, post, action),
    ensures
        post.wf(),
        post.request_id == pre.request_id,
        post.phase == pre.phase,
        forall|id: i64| #[trigger] post.pending.contains_key(id) ==> pre.pending.contains_key(id),
{
    assert forall|id: i64| #[trigger] post.pending.contains_key(id) implies pre.pending.contains_key(
        id,
    ) by {}
    if !(pre.phase is Connected) {
        assert(post.pending =~= Map::<i64, T>::empty());
    }
}

/// The task ends when, and only when, a look at the channels finds both the
/// callers and the subscriber gone. With either side alive it goes on,
/// whatever else happens.
pub proof fn law_stops_iff_both_sides_gone<T>(
    pre: ActorView<T>,
    event: Event<T>,
    post: ActorView<T>,
    action: Action<T>,
)
    requires
        !(pre.phase is Stopped),
        follows(pre, event, post, action),
    ensures
        post.phase is Stopped <==> event matches Event::Liveness {
            calls_closed: true,
            subscriber_closed: true,
        },
        action is Stop <==> post.phase is Stopped,
{
}

/// A task that has ended stays ended: it answers `Stop` to every event and
/// holds no slot.
pub proof fn law_stopped_is_final<T>(
    pre: ActorView<T>,
    event: Event<T>,
    post: ActorView<T>,
    action: Action<T>,
)
    requires
        pre.wf(),
        pre.phase is Stopped,
        follows(pre, event, post, action),
    ensures
        post.phase is Stopped,
        post.pending == Map::<i64, T>::empty(),
        action is Stop,
{
    assert(pre.stopped() == pre);
}

/// A reply is answered through the slot that was kept under its own id and no
/// other: the slot leaves the table, and every other slot stays where it was.
pub proof fn law_reply_reaches_its_own_slot<T>(
    pre: ActorView<T>,
    id: i64,
    outcome: RpcOutcome,
    post: ActorView<T>,
    action: Action<T>,
)
    requires
        settles(pre, id, outcome, post, action),
    ensures
        action matches Action::Deliver { slot, outcome: given } ==> pre.pending.contains_key(id)
            && slot == pre.pending[id] && given == outcome,
        action is Deliver <==> pre.pending.contains_key(id),
        !post.pending.contains_key(id),
        forall|other: i64|
            other != id ==> (#[trigger] post.pending.contains_key(other)
                <==> pre.pending.contains_key(other)),
        forall|other: i64|
            other != id && pre.pending.contains_key(other) ==> #[trigger] post.pending[other]
                == pre.pending[other],
{
}

/// Replies that arrive one after another, in whatever order: `states[k]` and
/// `actions[k]` answer `replies[k]` in `states[k - 1]`, starting from `pre`.
pub open spec fn replies_settle<T>(
    pre: ActorView<T>,
    replies: Seq<(i64, RpcOutcome)>,
    states: Seq<ActorView<T>>,
    actions: Seq<Action<T>>,
) -> bool {
    &&& states.len() == replies.len()
    &&& actions.len() == replies.len()
    &&& forall|k: int|
        0 <= k < replies.len() ==> settles(
            if k == 0 {
                pre
            } else {
                states[k - 1]
            },
            (#[trigger] replies[k]).0,
            replies[k].1,
            states[k],
            actions[k],
        )
}

/// Whether the reply at `k` is the first for its id.
pub open spec fn first_for_its_id(replies: Seq<(i64, RpcOutcome)>, k: int) -> bool {
    forall|j: int| 0 <= j < k ==> (#[trigger] replies[j]).0 != replies[k].0
}

proof fn lemma_table_after_replies<T>(
    pre: ActorView<T>,
    replies: Seq<(i64, RpcOutcome)>,
    states: Seq<ActorView<T>>,
    actions: Seq<Action<T>>,
    k: int,
)
    requires
        replies_settle(pre, replies, states, actions),
        0 <= k < replies.len(),
    ensures
        forall|id: i64| #[trigger]
            states[k].pending.contains_key(id) <==> pre.pending.contains_key(id) && forall|j: int|
                0 <= j <= k ==> (#[trigger] replies[j]).0 != id,
        forall|id: i64| #[trigger]
            states[k].pending.contains_key(id) ==> states[k].pending[id] == pre.pending[id],
    decreases k,
{
    let before = if k == 0 {
        pre
    } else {
        states[k - 1]
    };
    assert(settles(before, replies[k].0, replies[k].1, states[k], actions[k]));
    if k > 0 {
        lemma_table_after_replies(pre, replies, states, actions, k - 1);
    }
    assert forall|id: i64| #[trigger]
        states[k].pending.contains_key(id) <==> pre.pending.contains_key(id) && forall|j: int|
            0 <= j <= k ==> (#[trigger] replies[j]).0 != id by {
        if states[k].pending.contains_key(id) {
            assert(before.pending.contains_key(id));
            assert(replies[k].0 != id);
            assert forall|j: int| 0 <= j <= k implies (#[trigger] replies[j]).0 != id by {
                if j < k {
                    assert(k > 0);
                }
            }
        }
        if pre.pending.contains_key(id) && (forall|j: int|
            0 <= j <= k ==> (#[trigger] replies[j]).0 != id) {
            assert(replies[k].0 != id);
            if k > 0 {
                assert forall|j: int| 0 <= j <= k - 1 implies (#[trigger] replies[j]).0 != id by {}
                assert(before.pending.contains_key(id));
            }
            assert(states[k].pending.contains_key(id));
        }
    }
}

/// No cross-talk: however the replies to the outstanding calls are ordered,
/// each one is answered through the slot that its own call left under its id.
/// The first reply for an outstanding id is delivered to that call's slot;
/// a reply for an id that is not outstanding, or no longer, is discarded.
pub proof fn law_replies_match_calls_by_id<T>(
    pre: ActorView<T>,
    replies: Seq<(i64, RpcOutcome)>,
    states: Seq<ActorView<T>>,
    actions: Seq<Action<T>>,
)
    requires
        replies_settle(pre, replies, states, actions),
    ensures
        forall|k: int|
            0 <= k < replies.len() ==> #[trigger] actions[k] == (if pre.pending.contains_key(
                replies[k].0,
            ) && first_for_its_id(replies, k) {
                Action::Deliver { slot: pre.pending[replies[k].0], outcome: replies[k].1 }
            } else {
                Action::<T>::Idle
            }),
{
    assert forall|k: int| 0 <= k < replies.len() implies #[trigger] actions[k] == (
    if pre.pending.contains_key(replies[k].0) && first_for_its_id(replies, k) {
        Action::Deliver { slot: pre.pending[replies[k].0], outcome: replies[k].1 }
    } else {
        Action::<T>::Idle
    }) by {
        let id = replies[k].0;
        let before = if k == 0 {
            pre
        } else {
            states[k - 1]
        };
        assert(settles(before, id, replies[k].1, states[k], actions[k]));
        if k > 0 {
            lemma_table_after_replies(pre, replies, states, actions, k - 1);
            if before.pending.contains_key(id) {
                assert(pre.pending.contains_key(id));
                assert forall|j: int| 0 <= j < k implies (#[trigger] replies[j]).0 != id by {
                    assert(0 <= j <= k - 1);
                }
            } else if pre.pending.contains_key(id) {
                assert(!(forall|j: int| 0 <= j <= k - 1 ==> (#[trigger] replies[j]).0 != id));
                assert(!first_for_its_id(replies, k));
            }
        }
    }
}

/// When the connection is lost, every outstanding call is abandoned: no slot
/// stays in the table and none is handed out, so each caller finds its slot
/// dropped. A reply that still arrives for such a call is discarded, and the
/// next call gets an id above every abandoned one.
pub proof fn law_loss_abandons_every_call<T>(
    pre: ActorView<T>,
    post: ActorView<T>,
    action: Action<T>,
)
    requires
        pre.wf(),
        pre.phase is Connected,
        after_loss(pre, post, action),
    ensures
        post.phase is Reconnecting,
        post.pending == Map::<i64, T>::empty(),
        action is Idle,
        forall|id: i64, outcome: RpcOutcome, next: ActorView<T>, answer: Action<T>| #[trigger]
            settles(post, id, outcome, next, answer) ==> answer is Idle && next == post,
        forall|id: i64| #[trigger] pre.pending.contains_key(id) ==> id <= post.request_id,
{
}

/// Ids are not reused: along any run, a call that is taken gets an id above
/// every id given before, so a slot is never answered by a reply to an older
/// call. In particular every slot in the table after the run belongs to a
/// call that was taken during the run or was outstanding before it.
pub proof fn law_ids_only_grow<T>(
    pre: ActorView<T>,
    events: Seq<Event<T>>,
    states: Seq<ActorView<T>>,
    actions: Seq<Action<T>>,
    k: int,
)
    requires
        pre.wf(),
        runs(pre, events, states, actions),
        0 <= k < events.len(),
    ensures
        states[k].wf(),
        pre.request_id <= states[k].request_id,
        forall|id: i64| #[trigger]
            states[k].pending.contains_key(id) ==> id <= states[k].request_id,
        forall|id: i64| #[trigger]
            states[k].pending.contains_key(id) && id <= pre.request_id
                ==> pre.pending.contains_key(id),
    decreases k,
{
    let before = if k == 0 {
        pre
    } else {
        states[k - 1]
    };
    assert(admits(before, events[k]) && follows(before, events[k], states[k], actions[k]));
    if k > 0 {
        law_ids_only_grow(pre, events, states, actions, k - 1);
    }
    law_step_keeps_consistency(before, events[k], states[k], actions[k]);
    lemma_step_adds_only_new_ids(before, events[k], states[k], actions[k]);
    assert forall|id: i64| #[trigger]
        states[k].pending.contains_key(id) && id <= pre.request_id implies pre.pending.contains_key(
        id,
    ) by {
        assert(id <= before.request_id);
        assert(before.pending.contains_key(id));
    }
}

proof fn lemma_step_adds_only_new_ids<T>(
    pre: ActorView<T>,
    event: Event<T>,
    post: ActorView<T>,
    action: Action<T>,
)
    requires
        pre.wf(),
        admits(pre, event),
        follows(pre, event, post, action),
    ensures
        forall|id: i64| #[trigger]
            post.pending.contains_key(id) && id <= pre.request_id ==> pre.pending.contains_key(id),
{
    match event {
        Event::Message(Incoming::Text(text)) => {
            if pre.phase is Connected {
                let frame = choose|frame: Option<Frame>| #[trigger]
                    decodes_to(text@, frame) && after_frame(pre, frame, post, action);
                lemma_frame_keeps_consistency(pre, frame, post, action);
            }
        },
        _ => {},
    }
}

/// A call that was abandoned stays abandoned: after the connection is lost,
/// whatever happens next, no slot is ever kept under an id that was given
/// before the loss, so a late reply to such a call finds nothing to answer.
pub proof fn law_abandoned_calls_stay_abandoned<T>(
    lost: ActorView<T>,
    events: Seq<Event<T>>,
    states: Seq<ActorView<T>>,
    actions: Seq<Action<T>>,
    k: int,
    id: i64,
)
    requires
        lost.wf(),
        lost.pending == Map::<i64, T>::empty(),
        runs(lost, events, states, actions),
        0 <= k < events.len(),
        id <= lost.request_id,
    ensures
        !states[k].pending.contains_key(id),
        forall|outcome: RpcOutcome, next: ActorView<T>, answer: Action<T>| #[trigger]
            settles(states[k], id, outcome, next, answer) ==> answer is Idle && next == states[k],
{
    law_ids_only_grow(lost, events, states, actions, k);
}

} // verus!
