use vibesql_mail::stream::{
    connect_frame, event_frame, new_mail_data, push_json_string, SseBroadcaster, HEARTBEAT_FRAME,
};

#[test]
fn json_strings_escape_like_serde() {
    for s in ["plain", "quote \" and \\ slash", "line\nbreak\ttab\r", "\u{1}\u{8}\u{c}\u{1f}", "é😀", "\u{7f}"] {
        let mut out = String::new();
        push_json_string(&mut out, s);
        assert_eq!(out, serde_json::to_string(s).unwrap(), "{s:?}");
    }
}

#[test]
fn frames() {
    assert_eq!(event_frame("new-mail", "{}"), "event: new-mail\ndata: {}\n\n");
    assert_eq!(connect_frame("BAPert"), "event: connected\ndata: {\"agent\":\"BAPert\"}\n\n");
    let mut m = serde_json::Map::new();
    m.insert("agent".to_string(), serde_json::Value::String("a\"b".to_string()));
    let expected = serde_json::Value::Object(m).to_string();
    assert_eq!(connect_frame("a\"b"), format!("event: connected\ndata: {}\n\n", expected));
    assert_eq!(HEARTBEAT_FRAME, ": heartbeat\n\n");
}

fn mail_object(id: i64, from: &str, subject: serde_json::Value) -> String {
    let mut m = serde_json::Map::new();
    m.insert("message_id".to_string(), serde_json::Value::from(id));
    m.insert("from".to_string(), serde_json::Value::String(from.to_string()));
    m.insert("subject".to_string(), subject);
    serde_json::Value::Object(m).to_string()
}

#[test]
fn new_mail_data_matches_serde() {
    let a = new_mail_data(940, "QAPert", Some("Deploy \"ready\""));
    let b = mail_object(940, "QAPert", serde_json::Value::String("Deploy \"ready\"".to_string()));
    assert_eq!(a, b);
    let c = new_mail_data(-1, "x", None);
    assert_eq!(c, mail_object(-1, "x", serde_json::Value::Null));
}

#[test]
fn broadcaster_delivers_and_drops_closed_clients() {
    let mut b = SseBroadcaster::new();
    let mut rx1 = b.subscribe("BAPert");
    let rx2 = b.subscribe("BAPert");
    let mut rx3 = b.subscribe("QAPert");
    assert_eq!(rx1.try_recv().unwrap(), "event: connected\ndata: {\"agent\":\"BAPert\"}\n\n");
    assert_eq!(rx3.try_recv().unwrap(), "event: connected\ndata: {\"agent\":\"QAPert\"}\n\n");
    assert_eq!(b.clients.len(), 2);
    assert_eq!(b.clients[0].senders.len(), 2);
    drop(rx2);
    b.send("BAPert", "new-mail", "{\"x\":1}");
    assert_eq!(rx1.try_recv().unwrap(), "event: new-mail\ndata: {\"x\":1}\n\n");
    assert!(rx3.try_recv().is_err());
    assert_eq!(b.clients[0].senders.len(), 1);
    b.send("Nobody", "new-mail", "{}");
    assert_eq!(b.clients.len(), 2);
    drop(rx3);
    b.heartbeat();
    assert_eq!(rx1.try_recv().unwrap(), ": heartbeat\n\n");
    assert_eq!(b.clients[1].senders.len(), 0);
    assert_eq!(b.clients[0].senders.len(), 1);
}
