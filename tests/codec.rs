use bili_live_ws::header::{Header, PacketType, PacketVer};
use bili_live_ws::json::Json;
use bili_live_ws::keepalive::{keep_alive_step, KeepAliveAction, KeepAliveEvent, KeepAliveState};
use bili_live_ws::packet::{
    encode_frame, heartbeat_frame, parse_packet, parse_single_packet, ClientAuth, Packet, Packets,
};
use bili_live_ws::servers::{check_servers, Server};
use bili_live_ws::session::{session_step, SessionEvent, SessionOutput, SessionState};
use bili_live_ws::Error;

fn frame(body: &[u8], typ: PacketType, ver: PacketVer) -> Vec<u8> {
    encode_frame(body, typ, ver).unwrap()
}

fn container(sub_frames: &[Vec<u8>]) -> Vec<u8> {
    let mut batch = Vec::new();
    for f in sub_frames {
        batch.extend_from_slice(f);
    }
    let z = miniz_oxide::deflate::compress_to_vec_zlib(&batch, 6);
    frame(&z, PacketType::Notification, PacketVer::Compressed)
}

fn notification(body: &str) -> Vec<u8> {
    frame(body.as_bytes(), PacketType::Notification, PacketVer::Plain)
}

fn drain(mut p: Packets) -> Vec<Packet> {
    let mut out = Vec::new();
    while let Some(x) = p.next() {
        out.push(x);
    }
    out
}

const DANMU: &str = r#"{"cmd":"DANMU_MSG","info":[[0,1,25],"hello",[42,"alice",0],[],1]}"#;
const DANMU_MEDAL: &str =
    r#"{"cmd":"DANMU_MSG","info":[[],"hi",[7,"bob"],[12,"fans","carol",1022,99],0]}"#;

#[test]
fn header_round_trip() {
    for (len, typ, ver) in [
        (0usize, PacketType::Heartbeat, PacketVer::Heartbeat),
        (15, PacketType::Notification, PacketVer::Plain),
        (1000, PacketType::ClientAuth, PacketVer::Compressed),
        (4294967279, PacketType::ServerAuth, PacketVer::Plain),
    ] {
        let h = Header::new(len, typ, ver);
        let bytes = h.to_vec().unwrap();
        assert_eq!(bytes.len(), 16);
        let (back, rest) = Header::parse(&bytes).unwrap();
        assert_eq!(back, h);
        assert_eq!(back.len, len + 16);
        assert!(rest.is_empty());
    }
}

#[test]
fn header_wire_bytes() {
    let h = Header::new(15, PacketType::Heartbeat, PacketVer::Heartbeat);
    assert_eq!(h.to_vec().unwrap(), vec![0, 0, 0, 31, 0, 16, 0, 1, 0, 0, 0, 2, 0, 0, 0, 1]);
    let h = Header::new(0x0102_0304 - 16, PacketType::Notification, PacketVer::Compressed);
    assert_eq!(h.to_vec().unwrap(), vec![1, 2, 3, 4, 0, 16, 0, 2, 0, 0, 0, 5, 0, 0, 0, 1]);
}

#[test]
fn header_too_long_to_encode() {
    let h = Header { len: 1usize << 33, header_len: 16, ver: PacketVer::Plain, typ: PacketType::Notification };
    assert_eq!(h.to_vec(), Err(Error::InvalidHeader));
}

#[test]
fn truncated_header_rejected() {
    let full = Header::new(4, PacketType::Notification, PacketVer::Plain).to_vec().unwrap();
    for n in 0..16 {
        assert_eq!(Header::parse(&full[..n]).map(|x| x.0), Err(Error::InvalidHeader));
    }
}

#[test]
fn wrong_header_length_rejected() {
    let mut b = Header::new(4, PacketType::Notification, PacketVer::Plain).to_vec().unwrap();
    for hl in [0u8, 15, 17, 255] {
        b[5] = hl;
        assert_eq!(Header::parse(&b).map(|x| x.0), Err(Error::InvalidHeader));
    }
}

#[test]
fn unknown_codes_rejected() {
    let good = Header::new(4, PacketType::Notification, PacketVer::Plain).to_vec().unwrap();
    let mut b = good.clone();
    b[7] = 3;
    assert_eq!(Header::parse(&b).map(|x| x.0), Err(Error::InvalidHeader));
    let mut b = good.clone();
    b[11] = 4;
    assert_eq!(Header::parse(&b).map(|x| x.0), Err(Error::InvalidHeader));
    let mut b = good;
    b[3] = 15;
    assert_eq!(Header::parse(&b).map(|x| x.0), Err(Error::InvalidHeader));
}

#[test]
fn parse_keeps_trailing_bytes() {
    let mut b = notification("{}");
    b.extend_from_slice(&[9, 9]);
    let (h, rest) = Header::parse(&b).unwrap();
    assert_eq!(h.len, 18);
    assert_eq!(rest, &[b'{', b'}', 9, 9][..]);
    let (h, body) = parse_single_packet(&b).unwrap();
    assert_eq!(h.typ, PacketType::Notification);
    assert_eq!(body, b"{}".to_vec());
}

#[test]
fn incomplete_body_rejected() {
    let b = notification(r#"{"cmd":"NOTICE_MSG"}"#);
    assert_eq!(parse_single_packet(&b[..b.len() - 1]).map(|x| x.1), Err(Error::IncompleteBody));
}

#[test]
fn bad_zlib_is_decompression_failure() {
    let b = frame(b"not zlib", PacketType::Notification, PacketVer::Compressed);
    assert!(matches!(parse_packet(&b), Err(Error::DecompressionFailed)));
}

#[test]
fn compressed_body_is_inflated() {
    let inner = b"some payload bytes".to_vec();
    let z = miniz_oxide::deflate::compress_to_vec_zlib(&inner, 6);
    let b = frame(&z, PacketType::Notification, PacketVer::Compressed);
    let (_, body) = parse_single_packet(&b).unwrap();
    assert_eq!(body, inner);
}

#[test]
fn notice_scenario() {
    let mut b = vec![0x00, 0x00, 0x00, 0x24, 0x00, 0x10, 0x00, 0x00, 0x00, 0x00, 0x00, 0x05, 0x00, 0x00, 0x00, 0x01];
    b.extend_from_slice(br#"{"cmd":"NOTICE_MSG"}"#);
    let events = drain(parse_packet(&b).unwrap());
    assert_eq!(events.len(), 1);
    assert!(matches!(events[0], Packet::Notice));
}

#[test]
fn heartbeat_typed_frame_yields_nothing() {
    let mut b = vec![0x00, 0x00, 0x00, 0x1f, 0x00, 0x10, 0x00, 0x00, 0x00, 0x00, 0x00, 0x02, 0x00, 0x00, 0x00, 0x01];
    b.extend_from_slice(br#"{"cmd":"NOTICE_MSG"}"#);
    assert!(drain(parse_packet(&b).unwrap()).is_empty());
}

#[test]
fn control_frames_yield_nothing() {
    for t in [PacketType::Heartbeat, PacketType::HeartbeatResp, PacketType::ClientAuth, PacketType::ServerAuth] {
        let b = frame(br#"{"cmd":"NOTICE_MSG"}"#, t, PacketVer::Plain);
        assert!(drain(parse_packet(&b).unwrap()).is_empty());
    }
}

#[test]
fn container_with_two_sub_frames() {
    let b = container(&[notification(DANMU), notification(r#"{"cmd":"SOMETHING_NEW","x":[1,2]}"#)]);
    let events = drain(parse_packet(&b).unwrap());
    assert_eq!(events.len(), 2);
    match &events[0] {
        Packet::Danmu(d) => {
            assert_eq!(d.text, "hello");
            assert_eq!(d.user.name, "alice");
            assert_eq!(d.user.id, 42);
            assert!(d.medal.is_none());
        }
        other => panic!("expected a chat message, got {:?}", other),
    }
    match &events[1] {
        Packet::Other(Json::Object(fields)) => {
            assert_eq!(fields.len(), 2);
            assert!(fields.iter().any(|(k, v)| k == "cmd" && matches!(v, Json::Str(s) if s == "SOMETHING_NEW")));
        }
        other => panic!("expected an unknown message, got {:?}", other),
    }
}

#[test]
fn empty_medal_gives_none() {
    let events = drain(parse_packet(&notification(DANMU)).unwrap());
    match &events[0] {
        Packet::Danmu(d) => assert!(d.medal.is_none()),
        other => panic!("unexpected {:?}", other),
    }
}

#[test]
fn populated_medal_gives_medal() {
    let events = drain(parse_packet(&notification(DANMU_MEDAL)).unwrap());
    match &events[0] {
        Packet::Danmu(d) => {
            assert_eq!(d.text, "hi");
            assert_eq!(d.user.id, 7);
            assert_eq!(d.user.name, "bob");
            let m = d.medal.as_ref().unwrap();
            assert_eq!(m.level, 12);
            assert_eq!(m.name, "fans");
            assert_eq!(m.uname, "carol");
            assert_eq!(m.room, 1022);
        }
        other => panic!("unexpected {:?}", other),
    }
}

#[test]
fn short_medal_or_user_is_no_event() {
    let short_medal = r#"{"cmd":"DANMU_MSG","info":[[],"hi",[7,"bob"],[12,"fans"]]}"#;
    let short_user = r#"{"cmd":"DANMU_MSG","info":[[],"hi",[7],[]]}"#;
    let short_info = r#"{"cmd":"DANMU_MSG","info":[[],"hi",[7,"bob"]]}"#;
    let bad_text = r#"{"cmd":"DANMU_MSG","info":[[],5,[7,"bob"],[]]}"#;
    for body in [short_medal, short_user, short_info, bad_text] {
        assert!(drain(parse_packet(&notification(body)).unwrap()).is_empty());
    }
}

#[test]
fn malformed_sub_frame_skipped() {
    let b = container(&[
        notification(r#"{"cmd":"NOTICE_MSG"}"#),
        notification(r#"{"cmd": oops"#),
        notification(DANMU),
    ]);
    let events = drain(parse_packet(&b).unwrap());
    assert_eq!(events.len(), 2);
    assert!(matches!(events[0], Packet::Notice));
    assert!(matches!(events[1], Packet::Danmu(_)));
}

#[test]
fn sub_frame_with_bad_header_skipped() {
    let mut bad = notification(r#"{"cmd":"ROOM_BANNER"}"#);
    bad[5] = 15;
    let b = container(&[bad, notification(r#"{"cmd":"ROOM_BANNER"}"#)]);
    let events = drain(parse_packet(&b).unwrap());
    assert_eq!(events.len(), 1);
    assert!(matches!(events[0], Packet::Banner));
}

#[test]
fn trailing_partial_bytes_end_batch() {
    let mut tail = notification(r#"{"cmd":"NOTICE_MSG"}"#);
    tail.truncate(10);
    let b = container(&[notification(r#"{"cmd":"ROOM_BANNER"}"#), tail]);
    let mut p = parse_packet(&b).unwrap();
    assert!(matches!(p.next(), Some(Packet::Banner)));
    assert!(p.next().is_none());
    assert!(p.next().is_none());
}

#[test]
fn gift_message() {
    let body = r#"{"cmd":"SEND_GIFT","data":{"action":"feeds","giftName":"flower","uname":"dave","num":3,"price":100,"extra":true}}"#;
    let events = drain(parse_packet(&notification(body)).unwrap());
    match &events[0] {
        Packet::Gift(g) => {
            assert_eq!(g.action, "feeds");
            assert_eq!(g.gift_name, "flower");
            assert_eq!(g.uname, "dave");
            assert_eq!(g.num, 3);
            assert_eq!(g.price, 100);
        }
        other => panic!("unexpected {:?}", other),
    }
    let missing = r#"{"cmd":"SEND_GIFT","data":{"action":"feeds","giftName":"flower","uname":"dave","num":3}}"#;
    assert!(drain(parse_packet(&notification(missing)).unwrap()).is_empty());
}

#[test]
fn interact_banner_notice() {
    let e = drain(parse_packet(&notification(r#"{"cmd":"INTERACT_WORD","data":{"uname":"x"}}"#)).unwrap());
    assert!(matches!(e[0], Packet::Interact(_)));
    let e = drain(parse_packet(&notification(r#"{"cmd":"INTERACT_WORD","data":[1]}"#)).unwrap());
    assert!(e.is_empty());
    let e = drain(parse_packet(&notification(r#"{"cmd":"ROOM_BANNER","data":1}"#)).unwrap());
    assert!(matches!(e[0], Packet::Banner));
}

#[test]
fn missing_or_non_string_cmd_is_no_event() {
    for body in [r#"{"msg":"NOTICE_MSG"}"#, r#"{"cmd":5}"#, r#"[1,2]"#, "not json"] {
        assert!(drain(parse_packet(&notification(body)).unwrap()).is_empty());
    }
}

#[test]
fn unknown_number_kinds_kept() {
    let e = drain(parse_packet(&notification(r#"{"cmd":"X","a":-3,"b":1.5}"#)).unwrap());
    match &e[0] {
        Packet::Other(Json::Object(f)) => {
            assert!(f.iter().any(|(k, v)| k == "a" && matches!(v, Json::OtherNumber(s) if s == "-3")));
            assert!(f.iter().any(|(k, v)| k == "b" && matches!(v, Json::OtherNumber(s) if s == "1.5")));
        }
        other => panic!("unexpected {:?}", other),
    }
}

#[test]
fn heartbeat_frame_bytes() {
    let expected = b"\x00\x00\x00\x1f\x00\x10\x00\x01\x00\x00\x00\x02\x00\x00\x00\x01[object Object]".to_vec();
    assert_eq!(heartbeat_frame(), expected);
}

#[test]
fn encode_frame_layout() {
    let b = encode_frame(b"abc", PacketType::ClientAuth, PacketVer::Plain).unwrap();
    assert_eq!(b, vec![0, 0, 0, 19, 0, 16, 0, 0, 0, 0, 0, 7, 0, 0, 0, 1, b'a', b'b', b'c']);
    let (h, body) = parse_single_packet(&b).unwrap();
    assert_eq!(h.typ, PacketType::ClientAuth);
    assert_eq!(body, b"abc".to_vec());
}

#[test]
fn client_auth_fields() {
    let a = ClientAuth::new(1022, Some("tok"));
    assert_eq!(a.roomid, 1022);
    assert_eq!(a.protover, 2);
    assert_eq!(a.platform, "web");
    assert_eq!(a.clientver, "2.4.11");
    assert_eq!(a.typ, 2);
    assert_eq!(a.key.as_deref(), Some("tok"));
    assert!(ClientAuth::new(1, None).key.is_none());
}

#[test]
fn keep_alive_decisions() {
    assert_eq!(
        keep_alive_step(KeepAliveState::Running, KeepAliveEvent::Tick),
        (KeepAliveState::Running, KeepAliveAction::SendHeartbeat)
    );
    assert_eq!(
        keep_alive_step(KeepAliveState::Running, KeepAliveEvent::Cancelled),
        (KeepAliveState::Stopped, KeepAliveAction::Stop)
    );
    assert_eq!(
        keep_alive_step(KeepAliveState::Running, KeepAliveEvent::SendFailed),
        (KeepAliveState::Stopped, KeepAliveAction::Stop)
    );
}

#[test]
fn no_heartbeat_after_cancel() {
    let mut s = KeepAliveState::Running;
    let mut sent_after_cancel = 0;
    let mut cancelled = false;
    for e in [KeepAliveEvent::Tick, KeepAliveEvent::Cancelled, KeepAliveEvent::Tick, KeepAliveEvent::Tick] {
        cancelled |= e == KeepAliveEvent::Cancelled;
        let (n, a) = keep_alive_step(s, e);
        if cancelled && a == KeepAliveAction::SendHeartbeat {
            sent_after_cancel += 1;
        }
        s = n;
    }
    assert_eq!(sent_after_cancel, 0);
    assert_eq!(s, KeepAliveState::Stopped);
}

#[test]
fn server_list_checked() {
    assert!(matches!(check_servers(Vec::new(), "t".to_string()), Err(Error::NoServer)));
    let s = Server { host: "h".to_string(), port: 1, ws_port: 2, wss_port: 3 };
    let (list, tok) = check_servers(vec![s], "t".to_string()).unwrap();
    assert_eq!(list.len(), 1);
    assert_eq!(list[0].host, "h");
    assert_eq!(tok, "t");
}

#[test]
fn session_life_cycle() {
    let (s, out) = session_step(SessionState::Connecting, SessionEvent::Connected);
    assert_eq!(s, SessionState::Authenticating);
    assert!(matches!(out, SessionOutput::Nothing));
    let (s, _) = session_step(s, SessionEvent::AuthSent);
    assert_eq!(s, SessionState::Streaming);
    let (s, out) = session_step(s, SessionEvent::Binary(notification(r#"{"cmd":"NOTICE_MSG"}"#)));
    assert_eq!(s, SessionState::Streaming);
    match out {
        SessionOutput::Events(p) => assert!(matches!(drain(p).as_slice(), [Packet::Notice])),
        other => panic!("unexpected {:?}", other),
    }
    let (s, out) = session_step(s, SessionEvent::NonBinary);
    assert_eq!(s, SessionState::Streaming);
    assert!(matches!(out, SessionOutput::Nothing));
    let (s, out) = session_step(s, SessionEvent::Binary(vec![1, 2, 3]));
    assert!(matches!(out, SessionOutput::FrameError(Error::InvalidHeader)));
    let (s, out) = session_step(s, SessionEvent::TransportError);
    assert_eq!(s, SessionState::Closed);
    assert!(matches!(out, SessionOutput::Failed));
    let (s, out) = session_step(s, SessionEvent::Binary(notification(r#"{"cmd":"NOTICE_MSG"}"#)));
    assert_eq!(s, SessionState::Closed);
    assert!(matches!(out, SessionOutput::Nothing));
}
