use aria2_rs_yet::call::{
    AddUri, Aria2Params, Call, FieldSet, GetFiles, GetUris, GetVersion, GidReply,
    SystemListMethods, TellActive, TellStatus, TellStatusField, TellStopped, TellWaiting,
};
use aria2_rs_yet::client::request_for;
use aria2_rs_yet::options::Aria2Options;
use aria2_rs_yet::params::{encode_fields, encode_params, encode_text_list, Param};
use aria2_rs_yet::ConnectionMeta;

fn wire<C: Call>(call: C, token: Option<&str>) -> (String, Option<String>) {
    let request = request_for(call, token, ()).unwrap();
    (request.method.to_string(), request.params)
}

fn uris(list: &[&str]) -> Vec<String> {
    list.iter().map(|s| s.to_string()).collect()
}

const ALL_FIELDS: [(TellStatusField, &str); 23] = [
    (TellStatusField::Gid, "gid"),
    (TellStatusField::Status, "status"),
    (TellStatusField::TotalLength, "totalLength"),
    (TellStatusField::CompletedLength, "completedLength"),
    (TellStatusField::UploadedLength, "uploadedLength"),
    (TellStatusField::BitField, "bitField"),
    (TellStatusField::DownloadSpeed, "downloadSpeed"),
    (TellStatusField::UploadSpeed, "uploadSpeed"),
    (TellStatusField::InfoHash, "infoHash"),
    (TellStatusField::NumSeeders, "numSeeders"),
    (TellStatusField::Seeder, "seeder"),
    (TellStatusField::PieceLength, "pieceLength"),
    (TellStatusField::NumPieces, "numPieces"),
    (TellStatusField::Connections, "connections"),
    (TellStatusField::ErrorCode, "errorCode"),
    (TellStatusField::ErrorMessage, "errorMessage"),
    (TellStatusField::FollowedBy, "followedBy"),
    (TellStatusField::Following, "following"),
    (TellStatusField::BelongsTo, "belongsTo"),
    (TellStatusField::Dir, "dir"),
    (TellStatusField::Files, "files"),
    (TellStatusField::VerifiedLength, "verifiedLength"),
    (TellStatusField::VeriyIntegrityPending, "veriyIntegrityPending"),
];

#[test]
fn connection_meta_prefixes_the_secret() {
    let meta = ConnectionMeta::new("ws://localhost:6800/jsonrpc", Some("abc"));
    assert_eq!(meta.url, "ws://localhost:6800/jsonrpc");
    assert_eq!(meta.token.as_deref(), Some("token:abc"));
    let open = ConnectionMeta::new("ws://h/jsonrpc", None);
    assert_eq!(open.token, None);
    let empty = ConnectionMeta::new("", Some(""));
    assert_eq!(empty.url, "");
    assert_eq!(empty.token.as_deref(), Some("token:"));
}

#[test]
fn operation_without_parameters_sends_no_list_even_with_a_token() {
    let meta = ConnectionMeta::new("ws://localhost:6800/jsonrpc", Some("abc"));
    let (method, params) = wire(SystemListMethods, meta.token.as_deref());
    assert_eq!(method, "system.listMethods");
    assert_eq!(params, None);
    assert_eq!(wire(SystemListMethods, None).1, None);
}

#[test]
fn token_goes_before_the_uri_list() {
    let meta = ConnectionMeta::new("ws://localhost:6800/jsonrpc", Some("abc"));
    let (method, params) = wire(AddUri::new(uris(&["X"]), None, None), meta.token.as_deref());
    assert_eq!(method, "aria2.addUri");
    assert_eq!(params.as_deref(), Some("[\"token:abc\",[\"X\"]]"));
}

#[test]
fn add_uri_round_trip_has_no_nulls() {
    let (_, params) = wire(AddUri::new(uris(&["X"]), None, None), None);
    let text = params.unwrap();
    assert_eq!(text, "[[\"X\"]]");
    let echoed: serde_json::Value = serde_json::from_str(&text).unwrap();
    let elements = echoed.as_array().unwrap();
    assert_eq!(elements.len(), 1);
    let list = elements[0].as_array().unwrap();
    assert_eq!(list.len(), 1);
    assert_eq!(list[0].as_str(), Some("X"));
    assert!(elements.iter().all(|e| !e.is_null()));
}

#[test]
fn add_uri_with_options_and_position() {
    let options = Aria2Options {
        dir: Some("/tmp".to_string()),
        out: Some("a.zip".to_string()),
        referer: None,
        user_agent: Some("ua/1".to_string()),
    };
    let (_, params) = wire(AddUri::new(uris(&["http://a", "http://b"]), Some(options), Some(3)), Some("token:s"));
    assert_eq!(
        params.as_deref(),
        Some("[\"token:s\",[\"http://a\",\"http://b\"],{\"dir\":\"/tmp\",\"out\":\"a.zip\",\"user-agent\":\"ua/1\"},3]")
    );
}

#[test]
fn add_uri_with_position_only() {
    let (_, params) = wire(AddUri::uris(uris(&["u"])).position(Some(-1)), None);
    assert_eq!(params.as_deref(), Some("[[\"u\"],-1]"));
}

#[test]
fn add_uri_builders() {
    let call = AddUri::uris(uris(&["a", "b"]));
    assert_eq!(call.uris, uris(&["a", "b"]));
    assert_eq!(call.options, None);
    assert_eq!(call.position, None);
    let call = call.options(Some(Aria2Options::default())).position(Some(7));
    assert_eq!(call.options, Some(Aria2Options::default()));
    assert_eq!(call.position, Some(7));
    let call = call.options(None).position(None);
    assert_eq!(call.options, None);
    assert_eq!(call.position, None);
    let all = AddUri::new(uris(&[]), None, Some(0));
    assert!(all.uris.is_empty());
    assert_eq!(all.position, Some(0));
}

#[test]
fn get_version_sends_the_token_alone() {
    assert_eq!(wire(GetVersion, Some("token:abc")), ("aria2.getVersion".to_string(), Some("[\"token:abc\"]".to_string())));
    assert_eq!(wire(GetVersion, None).1.as_deref(), Some("[]"));
}

#[test]
fn strings_are_escaped() {
    let (_, params) = wire(GetUris::new("a\"b\\c\u{1}é"), Some("token:\"q\""));
    assert_eq!(params.as_deref(), Some("[\"token:\\\"q\\\"\",\"a\\\"b\\\\c\\u0001é\"]"));
    let echoed: serde_json::Value = serde_json::from_str(&params.unwrap()).unwrap();
    assert_eq!(echoed.get(1).and_then(|v| v.as_str()), Some("a\"b\\c\u{1}é"));
}

#[test]
fn methods_of_the_operations() {
    assert_eq!(SystemListMethods.method(), "system.listMethods");
    assert_eq!(GetVersion.method(), "aria2.getVersion");
    assert_eq!(AddUri::uris(Vec::new()).method(), "aria2.addUri");
    assert_eq!(TellStatus::new("g").method(), "aria2.tellStatus");
    assert_eq!(TellActive::new().method(), "aria2.tellActive");
    assert_eq!(TellWaiting::new(0, 1).method(), "aria2.tellWaiting");
    assert_eq!(TellStopped::new(0, 1).method(), "aria2.tellStopped");
    assert_eq!(GetUris::new("g").method(), "aria2.getUris");
    assert_eq!(GetFiles::new("g").method(), "aria2.getFiles");
}

#[test]
fn gid_queries() {
    assert_eq!(GetUris::new("2089b05ecca3d829").gid, "2089b05ecca3d829");
    assert_eq!(wire(GetUris::new("g1"), None).1.as_deref(), Some("[\"g1\"]"));
    assert_eq!(wire(GetFiles::new("g2"), Some("token:t")).1.as_deref(), Some("[\"token:t\",\"g2\"]"));
}

#[test]
fn tell_status_with_and_without_keys() {
    let plain = TellStatus::new("g");
    assert_eq!(plain.gid, "g");
    assert!(plain.keys.is_none());
    assert_eq!(wire(plain, None).1.as_deref(), Some("[\"g\"]"));
    let some = TellStatus::new_with_fields("g", vec![TellStatusField::Gid, TellStatusField::TotalLength]);
    assert_eq!(wire(some, Some("token:abc")).1.as_deref(), Some("[\"token:abc\",\"g\",[\"gid\",\"totalLength\"]]"));
}

#[test]
fn tell_active_waiting_stopped() {
    assert_eq!(wire(TellActive::new(), None).1.as_deref(), Some("[]"));
    assert_eq!(
        wire(TellActive::new_with_fields(vec![TellStatusField::Status]), None).1.as_deref(),
        Some("[[\"status\"]]")
    );
    let waiting = TellWaiting::new(-1, 10);
    assert_eq!((waiting.offset, waiting.num), (-1, 10));
    assert_eq!(wire(waiting, None).1.as_deref(), Some("[-1,10]"));
    assert_eq!(
        wire(TellWaiting::new_with_fields(0, 2, vec![TellStatusField::Dir]), Some("token:x")).1.as_deref(),
        Some("[\"token:x\",0,2,[\"dir\"]]")
    );
    let stopped = TellStopped::new(i32::MIN, i32::MAX);
    assert_eq!(wire(stopped, None).1.as_deref(), Some("[-2147483648,2147483647]"));
    assert_eq!(
        wire(TellStopped::new_with_fields(5, 6, vec![TellStatusField::Files, TellStatusField::Gid]), None)
            .1
            .as_deref(),
        Some("[5,6,[\"files\",\"gid\"]]")
    );
}

#[test]
fn keys_are_a_set() {
    let call = TellStatus::new("g")
        .field(TellStatusField::Gid)
        .field(TellStatusField::Status)
        .field(TellStatusField::Gid);
    assert_eq!(call.keys.as_ref().unwrap().to_vec(), vec![TellStatusField::Gid, TellStatusField::Status]);
    let call = call.key("dir").unwrap().key("status").unwrap();
    assert_eq!(
        call.keys.as_ref().unwrap().to_vec(),
        vec![TellStatusField::Gid, TellStatusField::Status, TellStatusField::Dir]
    );
    let call = call.fields(Some(vec![TellStatusField::Files, TellStatusField::Files]));
    assert_eq!(call.keys.as_ref().unwrap().to_vec(), vec![TellStatusField::Files]);
    let call = call.fields(None);
    assert!(call.keys.is_none());
    let call = call.fields(Some(Vec::new()));
    assert_eq!(call.keys.as_ref().unwrap().len(), 0);
    assert_eq!(wire(call, None).1.as_deref(), Some("[\"g\",[]]"));
}

#[test]
fn keys_by_name() {
    let call = TellActive::new().keys(Some(vec!["gid", "files", "gid"])).unwrap();
    assert_eq!(call.keys.as_ref().unwrap().to_vec(), vec![TellStatusField::Gid, TellStatusField::Files]);
    let call = call.keys(None).unwrap();
    assert!(call.keys.is_none());
    assert_eq!(TellActive::new().keys(Some(vec!["gid", "nope"])).err(), Some("Invalid TellStatusField"));
    assert_eq!(TellWaiting::new(0, 1).key("Gid").err(), Some("Invalid TellStatusField"));
    assert_eq!(TellStopped::new(0, 1).key("").err(), Some("Invalid TellStatusField"));
    let stopped = TellStopped::new(1, 2).key("seeder").unwrap();
    assert_eq!((stopped.offset, stopped.num), (1, 2));
    assert_eq!(stopped.keys.as_ref().unwrap().to_vec(), vec![TellStatusField::Seeder]);
}

#[test]
fn field_names_round_trip() {
    for (field, name) in ALL_FIELDS {
        assert_eq!(field.as_str(), name);
        assert_eq!(TellStatusField::try_from(name), Ok(field));
        assert_eq!(TellStatusField::from_name(name), Ok(field));
    }
}

#[test]
fn names_that_are_no_field() {
    for name in ["", "GID", "Gid", "gid ", "bittorrent", "total_length", "verifyIntegrityPending"] {
        assert_eq!(TellStatusField::try_from(name), Err("Invalid TellStatusField"));
    }
}

#[test]
fn field_set_keeps_first_occurrences() {
    let set = FieldSet::from_fields(&vec![
        TellStatusField::Dir,
        TellStatusField::Gid,
        TellStatusField::Dir,
        TellStatusField::Files,
        TellStatusField::Gid,
    ]);
    assert_eq!(set.to_vec(), vec![TellStatusField::Dir, TellStatusField::Gid, TellStatusField::Files]);
    assert_eq!(set.len(), 3);
    assert!(set.contains(TellStatusField::Gid));
    assert!(!set.contains(TellStatusField::Status));
    let more = set.clone().with(TellStatusField::Status).with(TellStatusField::Dir);
    assert_eq!(more.len(), 4);
    assert_eq!(set.len(), 3);
    assert_eq!(FieldSet::new().len(), 0);
    assert!(FieldSet::from_names(&vec!["gid", "x"]).is_err());
    assert_eq!(FieldSet::from_names(&vec!["dir", "dir"]).unwrap().to_vec(), vec![TellStatusField::Dir]);
}

#[test]
fn options_as_json() {
    assert_eq!(Aria2Options::default().to_json().unwrap(), "{}");
    let only_out = Aria2Options { out: Some("f".to_string()), ..Aria2Options::default() };
    assert_eq!(only_out.to_json().unwrap(), "{\"out\":\"f\"}");
    let all = Aria2Options {
        dir: Some("d".to_string()),
        out: Some("o".to_string()),
        referer: Some("r".to_string()),
        user_agent: Some("u\"a".to_string()),
    };
    assert_eq!(
        all.to_json().unwrap(),
        "{\"dir\":\"d\",\"out\":\"o\",\"referer\":\"r\",\"user-agent\":\"u\\\"a\"}"
    );
    assert_eq!(all.copy(), all);
    let parsed: serde_json::Value = serde_json::from_str(&all.to_json().unwrap()).unwrap();
    assert_eq!(parsed.get("user-agent").and_then(|v| v.as_str()), Some("u\"a"));
    assert_eq!(parsed.as_object().unwrap().len(), 4);
}

#[test]
fn parameter_encoders() {
    assert_eq!(encode_text_list(&Vec::new()).unwrap(), "[]");
    assert_eq!(encode_text_list(&uris(&["a", "b\n"])).unwrap(), "[\"a\",\"b\\n\"]");
    assert_eq!(encode_fields(&Vec::new()), "[]");
    assert_eq!(
        encode_fields(&vec![TellStatusField::VeriyIntegrityPending, TellStatusField::BitField]),
        "[\"veriyIntegrityPending\",\"bitField\"]"
    );
    assert_eq!(Param::Text("x".to_string()).to_json().unwrap(), "\"x\"");
    assert_eq!(Param::Number(-7).to_json().unwrap(), "-7");
    assert_eq!(encode_params(&Vec::new()).unwrap(), "[]");
    assert_eq!(
        encode_params(&vec![
            Param::Text("t".to_string()),
            Param::Number(0),
            Param::TextList(uris(&["u"])),
            Param::Fields(vec![TellStatusField::Gid]),
            Param::Options(Aria2Options::default()),
        ])
        .unwrap(),
        "[\"t\",0,[\"u\"],[\"gid\"],{}]"
    );
}

#[test]
fn params_with_token_serialize_token_first() {
    let params = Aria2Params::new(Some("token:abc"), TellWaiting::new(1, 2));
    let list = params.serialize();
    assert_eq!(list.len(), 3);
    assert!(matches!(&list[0], Param::Text(t) if t == "token:abc"));
    assert!(matches!(&list[1], Param::Number(1)));
    assert!(matches!(&list[2], Param::Number(2)));
    let bare = Aria2Params::new(None, GetVersion).serialize();
    assert!(bare.is_empty());
    assert!(SystemListMethods.to_params(Some("token:abc")).is_none());
    assert!(GetVersion.to_params(None).is_some());
}

#[test]
fn request_carries_the_handler() {
    let request = request_for(GetVersion, None, 42u8).unwrap();
    assert_eq!(request.handler, 42);
    assert_eq!(request.method, "aria2.getVersion");
}

#[test]
fn gid_reply_is_its_string() {
    let gid: String = GidReply("2089b05ecca3d829".to_string()).into();
    assert_eq!(gid, "2089b05ecca3d829");
}
