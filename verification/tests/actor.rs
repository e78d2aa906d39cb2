use aria2_rs_yet::actor::{
    Action, Actor, Event, Incoming, Phase, CONNECT_TIMEOUT_SECS, INITIAL_REQUEST_ID,
    MAILBOX_CAPACITY, RETRY_DELAY_SECS, SEND_TIMEOUT_SECS,
};
use aria2_rs_yet::client::reply_result;
use aria2_rs_yet::error::RpcError;
use aria2_rs_yet::jsonrpc::{NotificationParam, Response};
use aria2_rs_yet::ws::{Notification, RpcOutcome, RpcRequest};
use aria2_rs_yet::Error;

fn request(slot: u32) -> Event<u32> {
    Event::Request(RpcRequest { params: None, method: "aria2.getVersion", handler: slot })
}

fn text(t: &str) -> Event<u32> {
    Event::Message(Incoming::Text(t.to_string()))
}

fn alive() -> Event<u32> {
    Event::Liveness { calls_closed: false, subscriber_closed: false }
}

fn sent_id(action: Action<u32>) -> i64 {
    match action {
        Action::Send { text, timeout_secs } => {
            assert_eq!(timeout_secs, 10);
            let doc: serde_json::Value = serde_json::from_str(&text).unwrap();
            doc.get("id").and_then(|v| v.as_i64()).unwrap()
        }
        other => panic!("nothing is sent: {:?}", other),
    }
}

fn delivered(action: Action<u32>) -> (u32, RpcOutcome) {
    match action {
        Action::Deliver { slot, outcome } => (slot, outcome),
        other => panic!("nothing is delivered: {:?}", other),
    }
}

#[test]
fn constants_of_the_task() {
    assert_eq!(SEND_TIMEOUT_SECS, 10);
    assert_eq!(CONNECT_TIMEOUT_SECS, 10);
    assert_eq!(RETRY_DELAY_SECS, 10);
    assert_eq!(MAILBOX_CAPACITY, 32);
    assert_eq!(INITIAL_REQUEST_ID, 1);
}

#[test]
fn new_task_is_connected_and_idle() {
    let actor: Actor<u32> = Actor::new();
    assert_eq!(actor.phase(), Phase::Connected);
    assert_eq!(actor.request_id(), 1);
    assert_eq!(actor.outstanding(), 0);
    assert!(actor.has_id_left());
    assert!(!actor.is_pending(2));
}

#[test]
fn first_call_gets_id_two() {
    let mut actor: Actor<u32> = Actor::new();
    let action = actor.step(request(100));
    match action {
        Action::Send { text, timeout_secs } => {
            assert_eq!(text, "{\"jsonrpc\":\"2.0\",\"method\":\"aria2.getVersion\",\"id\":2}");
            assert_eq!(timeout_secs, SEND_TIMEOUT_SECS);
        }
        other => panic!("nothing is sent: {:?}", other),
    }
    assert_eq!(actor.request_id(), 2);
    assert!(actor.is_pending(2));
    assert_eq!(actor.outstanding(), 1);
}

#[test]
fn call_with_params_sends_them() {
    let mut actor: Actor<u32> = Actor::new();
    let action = actor.step(Event::Request(RpcRequest {
        params: Some("[\"token:abc\",[\"X\"]]".to_string()),
        method: "aria2.addUri",
        handler: 5,
    }));
    match action {
        Action::Send { text, .. } => assert_eq!(
            text,
            "{\"jsonrpc\":\"2.0\",\"method\":\"aria2.addUri\",\"id\":2,\"params\":[\"token:abc\",[\"X\"]]}"
        ),
        other => panic!("nothing is sent: {:?}", other),
    }
}

#[test]
fn ids_grow_by_one() {
    let mut actor: Actor<u32> = Actor::new();
    for expected in 2..12 {
        assert_eq!(sent_id(actor.step(request(expected as u32))), expected);
    }
    assert_eq!(actor.outstanding(), 10);
}

#[test]
fn replies_in_any_order_reach_their_own_callers() {
    let mut actor: Actor<u32> = Actor::new();
    let mut slots = Vec::new();
    for slot in [10u32, 20, 30, 40, 50] {
        let id = sent_id(actor.step(request(slot)));
        slots.push((id, slot));
    }
    for index in [3usize, 0, 4, 1, 2] {
        let (id, slot) = slots[index];
        let reply = format!("{{\"id\":{},\"result\":\"for-{}\"}}", id, slot);
        let (got, outcome) = delivered(actor.step(text(&reply)));
        assert_eq!(got, slot);
        match outcome {
            RpcOutcome::Success(value) => {
                assert_eq!(value.as_str(), Some(format!("for-{}", slot).as_str()))
            }
            other => panic!("not a success: {:?}", other),
        }
        assert!(!actor.is_pending(id));
    }
    assert_eq!(actor.outstanding(), 0);
}

#[test]
fn second_reply_for_an_id_is_discarded() {
    let mut actor: Actor<u32> = Actor::new();
    let id = sent_id(actor.step(request(1)));
    let other = sent_id(actor.step(request(2)));
    let reply = format!("{{\"id\":{},\"result\":1}}", id);
    assert_eq!(delivered(actor.step(text(&reply))).0, 1);
    assert!(matches!(actor.step(text(&reply)), Action::Idle));
    assert!(actor.is_pending(other));
    assert_eq!(actor.outstanding(), 1);
}

#[test]
fn reply_for_unknown_id_is_discarded() {
    let mut actor: Actor<u32> = Actor::new();
    let _ = actor.step(request(1));
    assert!(matches!(actor.step(text("{\"id\":99,\"result\":1}")), Action::Idle));
    assert!(matches!(
        actor.step(text("{\"id\":99,\"error\":{\"code\":1,\"message\":\"m\"}}")),
        Action::Idle
    ));
    assert_eq!(actor.outstanding(), 1);
}

#[test]
fn error_reply_reaches_its_caller_as_remote_failure() {
    let mut actor: Actor<u32> = Actor::new();
    let mut last = 0;
    for slot in 2..=7u32 {
        last = sent_id(actor.step(request(slot)));
    }
    assert_eq!(last, 7);
    assert!(actor.is_pending(7));
    let action = actor.step(text("{\"id\":7,\"error\":{\"code\":1,\"message\":\"GID not found\"}}"));
    let (slot, outcome) = delivered(action);
    assert_eq!(slot, 7);
    assert!(!actor.is_pending(7));
    assert_eq!(actor.outstanding(), 5);
    match reply_result(Some(outcome)) {
        Err(Error::Rpc(error)) => {
            assert_eq!(error, RpcError { code: 1, message: "GID not found".to_string() })
        }
        other => panic!("not a remote failure: {:?}", other),
    }
}

#[test]
fn abandoned_call_is_a_channel_failure() {
    assert!(matches!(reply_result(None), Err(Error::ChannelRecv)));
}

#[test]
fn successful_reply_is_its_result() {
    let value: serde_json::Value = serde_json::from_str("[\"a\",\"b\"]").unwrap();
    match reply_result(Some(RpcOutcome::Success(value.clone()))) {
        Ok(result) => assert_eq!(result, value),
        other => panic!("not a result: {:?}", other),
    }
}

#[test]
fn notification_frame_makes_one_event_per_gid_in_order() {
    let mut actor: Actor<u32> = Actor::new();
    let frame = "{\"jsonrpc\":\"2.0\",\"method\":\"aria2.onDownloadComplete\",\"params\":[{\"gid\":\"g1\"},{\"gid\":\"g2\"},{\"gid\":\"g3\"}]}";
    match actor.step(text(frame)) {
        Action::Notify(events) => assert_eq!(
            events,
            vec![
                Notification::DownloadComplete("g1".to_string()),
                Notification::DownloadComplete("g2".to_string()),
                Notification::DownloadComplete("g3".to_string()),
            ]
        ),
        other => panic!("no events: {:?}", other),
    }
    assert_eq!(actor.phase(), Phase::Connected);
}

#[test]
fn notification_with_unknown_method_makes_no_event() {
    let mut actor: Actor<u32> = Actor::new();
    match actor.step(text("{\"method\":\"aria2.onSomethingElse\",\"params\":[{\"gid\":\"g1\"}]}")) {
        Action::Notify(events) => assert!(events.is_empty()),
        other => panic!("no events: {:?}", other),
    }
}

#[test]
fn every_kind_of_notification() {
    let gid = || "2089b05ecca3d829".to_string();
    assert_eq!(Notification::new("aria2.onDownloadStart", gid()), Notification::DownloadStart(gid()));
    assert_eq!(Notification::new("aria2.onDownloadPause", gid()), Notification::DownloadPause(gid()));
    assert_eq!(Notification::new("aria2.onDownloadStop", gid()), Notification::DownloadStop(gid()));
    assert_eq!(
        Notification::new("aria2.onDownloadComplete", gid()),
        Notification::DownloadComplete(gid())
    );
    assert_eq!(Notification::new("aria2.onDownloadError", gid()), Notification::DownloadError(gid()));
    assert_eq!(
        Notification::new("aria2.onBtDownloadComplete", gid()),
        Notification::BtDownloadComplete(gid())
    );
    assert_eq!(Notification::parse("aria2.onDownloadStart", gid()), Some(Notification::DownloadStart(gid())));
    assert_eq!(Notification::parse("aria2.ondownloadstart", gid()), None);
    assert_eq!(Notification::parse("", gid()), None);
    assert_eq!(Notification::DownloadError(gid()).gid(), "2089b05ecca3d829");
}

#[test]
fn fan_out_keeps_the_order_of_the_list() {
    let params: Vec<NotificationParam> =
        ["z", "a", "m"].iter().map(|g| NotificationParam { gid: g.to_string() }).collect();
    assert_eq!(
        Notification::fan_out("aria2.onBtDownloadComplete", &params),
        vec![
            Notification::BtDownloadComplete("z".to_string()),
            Notification::BtDownloadComplete("a".to_string()),
            Notification::BtDownloadComplete("m".to_string()),
        ]
    );
    assert!(Notification::fan_out("aria2.onDownloadStart", &Vec::new()).is_empty());
    assert!(Notification::fan_out("nope", &params).is_empty());
}

#[test]
fn malformed_frames_change_nothing() {
    let mut actor: Actor<u32> = Actor::new();
    let _ = actor.step(request(1));
    for frame in ["", "garbage", "{}", "[]", "{\"id\":2}", "{\"result\":1}"] {
        assert!(matches!(actor.step(text(frame)), Action::Idle));
        assert_eq!(actor.phase(), Phase::Connected);
        assert_eq!(actor.outstanding(), 1);
        assert!(actor.is_pending(2));
    }
}

#[test]
fn other_messages_are_ignored() {
    let mut actor: Actor<u32> = Actor::new();
    let _ = actor.step(request(1));
    assert!(matches!(actor.step(Event::Message(Incoming::Other)), Action::Idle));
    assert_eq!(actor.phase(), Phase::Connected);
    assert_eq!(actor.outstanding(), 1);
}

#[test]
fn loss_of_the_connection_abandons_every_call() {
    for loss in 0..3 {
        let mut actor: Actor<u32> = Actor::new();
        let mut ids = Vec::new();
        for slot in 0..4u32 {
            ids.push(sent_id(actor.step(request(slot))));
        }
        let event = match loss {
            0 => Event::Message(Incoming::Close),
            1 => Event::Message(Incoming::Failed),
            _ => Event::SendTimedOut,
        };
        assert!(matches!(actor.step(event), Action::Idle));
        assert_eq!(actor.phase(), Phase::Reconnecting);
        assert_eq!(actor.outstanding(), 0);
        for id in &ids {
            assert!(!actor.is_pending(*id));
        }
        assert!(matches!(actor.step(alive()), Action::Connect { timeout_secs: 10 }));
        assert!(matches!(actor.step(Event::ConnectOk), Action::Idle));
        for id in &ids {
            let stale = format!("{{\"id\":{},\"result\":1}}", id);
            assert!(matches!(actor.step(text(&stale)), Action::Idle));
        }
        let fresh = sent_id(actor.step(request(9)));
        assert!(ids.iter().all(|id| *id < fresh));
    }
}

#[test]
fn reconnect_after_one_failed_attempt_then_call_succeeds() {
    let mut actor: Actor<u32> = Actor::new();
    let before = sent_id(actor.step(request(1)));
    assert!(matches!(actor.step(Event::Message(Incoming::Close)), Action::Idle));
    assert_eq!(actor.phase(), Phase::Reconnecting);
    assert!(matches!(actor.step(alive()), Action::Connect { timeout_secs: 10 }));
    assert!(matches!(actor.step(Event::ConnectFailed), Action::Sleep { secs: 10 }));
    assert_eq!(actor.phase(), Phase::Reconnecting);
    assert!(matches!(actor.step(alive()), Action::Connect { timeout_secs: 10 }));
    assert!(matches!(actor.step(Event::ConnectOk), Action::Idle));
    assert_eq!(actor.phase(), Phase::Connected);
    assert!(matches!(actor.step(alive()), Action::Wait));
    let id = sent_id(actor.step(request(2)));
    assert_eq!(id, before + 1);
    assert!(actor.is_pending(id));
    let reply = format!("{{\"id\":{},\"result\":\"OK\"}}", id);
    let (slot, outcome) = delivered(actor.step(text(&reply)));
    assert_eq!(slot, 2);
    match reply_result(Some(outcome)) {
        Ok(value) => assert_eq!(value.as_str(), Some("OK")),
        other => panic!("not a result: {:?}", other),
    }
}

#[test]
fn calls_are_not_taken_while_reconnecting() {
    let mut actor: Actor<u32> = Actor::new();
    let _ = actor.step(Event::SendTimedOut);
    assert!(matches!(actor.step(request(1)), Action::Idle));
    assert_eq!(actor.request_id(), 1);
    assert_eq!(actor.outstanding(), 0);
    assert!(matches!(actor.step(text("{\"id\":2,\"result\":1}")), Action::Idle));
    assert_eq!(actor.phase(), Phase::Reconnecting);
}

#[test]
fn attempt_results_are_ignored_while_connected() {
    let mut actor: Actor<u32> = Actor::new();
    assert!(matches!(actor.step(Event::ConnectFailed), Action::Idle));
    assert!(matches!(actor.step(Event::ConnectOk), Action::Idle));
    assert_eq!(actor.phase(), Phase::Connected);
}

#[test]
fn task_stops_only_when_both_sides_are_gone() {
    for (calls_closed, subscriber_closed) in [(false, false), (true, false), (false, true)] {
        let mut actor: Actor<u32> = Actor::new();
        assert!(matches!(
            actor.step(Event::Liveness { calls_closed, subscriber_closed }),
            Action::Wait
        ));
        assert_eq!(actor.phase(), Phase::Connected);
        let _ = actor.step(Event::Message(Incoming::Close));
        assert!(matches!(
            actor.step(Event::Liveness { calls_closed, subscriber_closed }),
            Action::Connect { timeout_secs: 10 }
        ));
        assert_eq!(actor.phase(), Phase::Reconnecting);
    }
    let mut connected: Actor<u32> = Actor::new();
    let _ = connected.step(request(1));
    assert!(matches!(
        connected.step(Event::Liveness { calls_closed: true, subscriber_closed: true }),
        Action::Stop
    ));
    assert_eq!(connected.phase(), Phase::Stopped);
    assert_eq!(connected.outstanding(), 0);
    let mut reconnecting: Actor<u32> = Actor::new();
    let _ = reconnecting.step(Event::Message(Incoming::Failed));
    assert!(matches!(
        reconnecting.step(Event::Liveness { calls_closed: true, subscriber_closed: true }),
        Action::Stop
    ));
    assert_eq!(reconnecting.phase(), Phase::Stopped);
}

#[test]
fn stopped_task_answers_stop_to_everything() {
    let mut actor: Actor<u32> = Actor::new();
    let _ = actor.step(Event::Liveness { calls_closed: true, subscriber_closed: true });
    assert!(matches!(actor.step(alive()), Action::Stop));
    assert!(matches!(actor.step(request(1)), Action::Stop));
    assert!(matches!(actor.step(text("{\"id\":2,\"result\":1}")), Action::Stop));
    assert!(matches!(actor.step(Event::SendTimedOut), Action::Stop));
    assert!(matches!(actor.step(Event::ConnectOk), Action::Stop));
    assert!(matches!(actor.step(Event::ConnectFailed), Action::Stop));
    assert_eq!(actor.phase(), Phase::Stopped);
    assert_eq!(actor.outstanding(), 0);
}

#[test]
fn dispatch_handles_a_decoded_envelope() {
    let mut actor: Actor<u32> = Actor::new();
    let id = sent_id(actor.on_request(RpcRequest { params: None, method: "m", handler: 77 }));
    let result: serde_json::Value = serde_json::from_str("{\"k\":1}").unwrap();
    let (slot, _) = delivered(actor.dispatch(Some(Response::Resp { id, result })));
    assert_eq!(slot, 77);
    assert!(matches!(actor.dispatch(None), Action::Idle));
    match actor.dispatch(Some(Response::Notification {
        method: "aria2.onDownloadPause".to_string(),
        params: vec![NotificationParam { gid: "g".to_string() }],
    })) {
        Action::Notify(events) => {
            assert_eq!(events, vec![Notification::DownloadPause("g".to_string())])
        }
        other => panic!("no events: {:?}", other),
    }
}

#[test]
fn handle_response_decodes_and_dispatches() {
    let mut actor: Actor<u32> = Actor::new();
    let id = sent_id(actor.on_request(RpcRequest { params: None, method: "m", handler: 3 }));
    let reply = format!("{{\"id\":{},\"result\":[]}}", id);
    assert_eq!(delivered(actor.handle_response(&reply)).0, 3);
    assert!(matches!(actor.handle_response(&reply), Action::Idle));
}
