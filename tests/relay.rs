use serial_bridge::lines::LineAssembler;
use serial_bridge::relay::{
    command_payload, forward_publish, line_messages, serial_frame, serial_line_message,
    tag_payload, SerialReader,
};
use serial_bridge::timing::RateFilter;
use serial_bridge::topic::TopicType;

fn json(text: &str) -> serde_json::Value {
    serde_json::from_str(text).unwrap()
}

#[test]
fn imu_message_is_tagged() {
    let mut f = RateFilter::new(0);
    let out = forward_publish(&mut f, "imu", b"{\"x\":1}", 5).unwrap();
    assert_eq!(json(&out), json("{\"x\":1,\"topic\":\"imu\"}"));
    assert!(!out.contains('\n'));
}

#[test]
fn each_topic_gets_its_code() {
    for (kind, code) in [
        (TopicType::Anemometer, "anm"),
        (TopicType::SPS30, "sps"),
        (TopicType::Imu, "imu"),
        (TopicType::Status, "status"),
    ] {
        let out = tag_payload(kind, "{\"a\":[1,2],\"topic\":\"old\"}").unwrap();
        let v = json(&out);
        assert_eq!(v["topic"], serde_json::Value::from(code));
        assert_eq!(v["a"], json("[1,2]"));
    }
}

#[test]
fn non_object_payloads_are_dropped() {
    assert_eq!(tag_payload(TopicType::Imu, "[1,2]"), None);
    assert_eq!(tag_payload(TopicType::Imu, "42"), None);
    assert_eq!(tag_payload(TopicType::Imu, "not json"), None);
}

#[test]
fn unknown_topic_is_dropped() {
    let mut f = RateFilter::new(0);
    assert_eq!(forward_publish(&mut f, "weather", b"{\"x\":1}", 5), None);
    assert_eq!(f.last, None);
}

#[test]
fn binary_payload_is_dropped() {
    let mut f = RateFilter::new(0);
    assert_eq!(forward_publish(&mut f, "status", &[0xff, 0xfe, b'{', b'}'], 5), None);
}

#[test]
fn anemometer_readings_are_rate_limited() {
    let mut f = RateFilter::new(1000);
    assert!(forward_publish(&mut f, "anemometer", b"{\"w\":1}", 1000).is_some());
    assert_eq!(forward_publish(&mut f, "anemometer", b"{\"w\":2}", 1500), None);
    assert!(forward_publish(&mut f, "imu", b"{\"x\":1}", 1600).is_some());
    assert_eq!(f.last, Some(1000));
    let out = forward_publish(&mut f, "anemometer", b"{\"w\":3}", 2000).unwrap();
    assert_eq!(json(&out), json("{\"w\":3,\"topic\":\"anm\"}"));
    assert_eq!(f.last, Some(2000));
}

#[test]
fn filtered_reading_that_is_not_json_still_moves_filter() {
    let mut f = RateFilter::new(10);
    assert_eq!(forward_publish(&mut f, "anemometer", b"oops", 20), None);
    assert_eq!(f.last, Some(20));
}

#[test]
fn serial_line_is_canonicalised() {
    let out = serial_line_message("  { \"command\" : \"go\" }\r\n").unwrap();
    assert_eq!(out, "{\"command\":\"go\"}");
}

#[test]
fn malformed_serial_line_is_dropped() {
    assert_eq!(serial_line_message("not json\n"), None);
    assert_eq!(serial_line_message("   \n"), None);
    assert_eq!(serial_line_message(""), None);
    assert_eq!(serial_line_message("\u{3000}\t\u{a0}\u{2028}\n"), None);
}

#[test]
fn first_anemometer_reading_passes_at_once() {
    let mut f = RateFilter::new(1000);
    let out = forward_publish(&mut f, "anemometer", b"{\"w\":1}", 500).unwrap();
    assert_eq!(json(&out), json("{\"w\":1,\"topic\":\"anm\"}"));
    assert_eq!(f.last, Some(500));
    assert_eq!(forward_publish(&mut f, "anemometer", b"{\"w\":2}", 1499), None);
}

#[test]
fn tagged_message_is_one_line() {
    let out = tag_payload(TopicType::Status, "{\n \"text\": \"a\\nb\",\n \"n\": [1,\n 2]\n}").unwrap();
    assert!(!out.contains('\n'));
    assert_eq!(json(&out), json("{\"text\":\"a\\nb\",\"n\":[1,2],\"topic\":\"status\"}"));
}

#[test]
fn command_is_extracted() {
    assert_eq!(command_payload("{\"command\":\"reset\",\"x\":1}"), Some("reset".to_string()));
}

#[test]
fn non_string_command_is_dropped() {
    assert_eq!(command_payload("{\"command\":42}"), None);
    assert_eq!(command_payload("{\"cmd\":\"go\"}"), None);
    assert_eq!(command_payload("not json"), None);
    assert_eq!(command_payload("\"command\""), None);
}

#[test]
fn frame_ends_with_newline() {
    assert_eq!(serial_frame("{\"a\":1}"), "{\"a\":1}\n");
    assert_eq!(serial_frame(""), "\n");
}

#[test]
fn assembler_splits_lines() {
    let mut a = LineAssembler::new();
    let lines = a.push_bytes(b"one\ntwo\nthr");
    assert_eq!(lines, vec!["one\n".to_string(), "two\n".to_string()]);
    let lines = a.push_bytes(b"ee\n\n");
    assert_eq!(lines, vec!["three\n".to_string(), "\n".to_string()]);
    assert!(a.push_bytes(b"").is_empty());
}

#[test]
fn assembler_replaces_invalid_bytes() {
    let mut a = LineAssembler::new();
    let lines = a.push_bytes(&[b'a', 0xff, b'\n']);
    assert_eq!(lines, vec!["a\u{fffd}\n".to_string()]);
}

#[test]
fn assembler_on_text() {
    let mut a = LineAssembler::new();
    let text: Vec<char> = "x\ny".chars().collect();
    assert_eq!(a.push_text(&text), vec!["x\n".to_string()]);
    let text: Vec<char> = "z\n".chars().collect();
    assert_eq!(a.push_text(&text), vec!["yz\n".to_string()]);
}

#[test]
fn serial_messages_keep_their_order_across_pieces() {
    let stream = b"{\"n\":1}\nnot json\n{\"n\":2}\n\n{\"n\": 3}\n{\"n\":4}\n";
    let mut whole = SerialReader::new();
    let all = whole.receive(stream);
    assert_eq!(
        all,
        vec!["{\"n\":1}", "{\"n\":2}", "{\"n\":3}", "{\"n\":4}"]
    );
    for cut in 0..stream.len() {
        let mut r = SerialReader::new();
        let mut got = r.receive(&stream[..cut]);
        got.extend(r.receive(&stream[cut..]));
        assert_eq!(got, all);
    }
}

#[test]
fn line_messages_filter_in_order() {
    let lines = vec![
        "{\"b\":2}\n".to_string(),
        "junk\n".to_string(),
        "{\"a\":1}\n".to_string(),
    ];
    assert_eq!(line_messages(&lines), vec!["{\"b\":2}", "{\"a\":1}"]);
}
