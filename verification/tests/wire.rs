use pipemonitor::pipe::PipeMessage;
use pipemonitor::wire::{decimal, encode, frame, frame_quoted};

#[test]
fn decimal_writes_plain_digits() {
    assert_eq!(decimal(0), "0");
    assert_eq!(decimal(7), "7");
    assert_eq!(decimal(9), "9");
    assert_eq!(decimal(10), "10");
    assert_eq!(decimal(101), "101");
    assert_eq!(decimal(12345), "12345");
    assert_eq!(decimal(1000000), "1000000");
    assert_eq!(decimal(usize::MAX), usize::MAX.to_string());
}

#[test]
fn frame_puts_the_fields_in_order() {
    assert_eq!(frame("\"p\"", 3, 10), "{\"name\":\"p\",\"size\":3,\"max_capacity\":10}");
    assert_eq!(frame("\"\"", 0, 1), "{\"name\":\"\",\"size\":0,\"max_capacity\":1}");
}

#[test]
fn message_encodes_to_one_json_object() {
    let msg = PipeMessage::new(String::from("TestPipe"), 3, 10);
    let text = msg.to_json().unwrap();
    assert_eq!(text, "{\"name\":\"TestPipe\",\"size\":3,\"max_capacity\":10}");
    let value: serde_json::Value = serde_json::from_str(&text).unwrap();
    let object = value.as_object().unwrap();
    assert_eq!(object.len(), 3);
    assert_eq!(object["name"].as_str(), Some("TestPipe"));
    assert_eq!(object["size"].as_u64(), Some(3));
    assert_eq!(object["max_capacity"].as_u64(), Some(10));
}

#[test]
fn name_is_escaped_as_a_json_string() {
    let name = "a\"b\\c\nd\u{1}é";
    let text = encode(name, 1, 2).unwrap();
    assert_eq!(text, "{\"name\":\"a\\\"b\\\\c\\nd\\u0001é\",\"size\":1,\"max_capacity\":2}");
    let value: serde_json::Value = serde_json::from_str(&text).unwrap();
    assert_eq!(value["name"].as_str(), Some(name));
    assert_eq!(value["size"].as_u64(), Some(1));
    assert_eq!(value["max_capacity"].as_u64(), Some(2));
}

#[test]
fn largest_sizes_survive_the_encoding() {
    let text = PipeMessage::new(String::new(), usize::MAX, usize::MAX).to_json().unwrap();
    let value: serde_json::Value = serde_json::from_str(&text).unwrap();
    assert_eq!(value["name"].as_str(), Some(""));
    assert_eq!(value["size"].as_u64(), Some(usize::MAX as u64));
    assert_eq!(value["max_capacity"].as_u64(), Some(usize::MAX as u64));
}

#[test]
fn frame_quoted_frames_a_literal() {
    let quoted = serde_json::to_string("q");
    assert_eq!(frame_quoted(quoted, 4, 5).unwrap(), "{\"name\":\"q\",\"size\":4,\"max_capacity\":5}");
}

#[test]
fn frame_quoted_passes_a_failure_on() {
    let failure = serde_json::from_str::<serde_json::Value>("{").unwrap_err();
    let detail = failure.to_string();
    let out = frame_quoted(Err(failure), 4, 5);
    assert_eq!(out.unwrap_err().detail, detail);
}

#[test]
fn message_new_keeps_its_fields() {
    let msg = PipeMessage::new(String::from("Intake"), 2, 7);
    assert_eq!(msg.name, "Intake");
    assert_eq!(msg.size, 2);
    assert_eq!(msg.max_capacity, 7);
}
