use client_input::command::{Descriptor, Message};

fn submit(line: &str) -> Message {
    let descriptor = Descriptor { text: line.to_string() };
    descriptor.parse_command()
}

fn failed() -> Message {
    Message::ServerLog("Fail to parse command".to_string())
}

#[test]
fn new_descriptor_is_empty() {
    let descriptor = Descriptor::new();
    assert_eq!(descriptor.text, "");
    assert!(descriptor.text.is_empty());
}

#[test]
fn test_command_is_answered_with_its_success_line() {
    assert_eq!(submit("/test"), Message::ServerLog("Test successed".to_string()));
}

#[test]
fn unknown_command_is_answered_with_the_failure_line() {
    assert_eq!(submit("/bogus"), failed());
}

#[test]
fn plain_text_is_chat() {
    assert_eq!(submit("hello"), Message::ChatMessage);
}

#[test]
fn empty_line_is_chat() {
    assert_eq!(Descriptor::new().parse_command(), Message::ChatMessage);
    assert_eq!(submit(""), Message::ChatMessage);
}

#[test]
fn a_lone_slash_is_an_unknown_command() {
    assert_eq!(submit("/"), failed());
}

#[test]
fn the_test_command_is_matched_exactly() {
    assert_eq!(submit("/test "), failed());
    assert_eq!(submit("/test\n"), failed());
    assert_eq!(submit("/Test"), failed());
    assert_eq!(submit("/TEST"), failed());
    assert_eq!(submit("/tes"), failed());
    assert_eq!(submit("/tests"), failed());
    assert_eq!(submit("/test /test"), failed());
    assert_eq!(submit("//test"), failed());
}

#[test]
fn only_the_first_character_makes_a_command() {
    assert_eq!(submit(" /test"), Message::ChatMessage);
    assert_eq!(submit("test"), Message::ChatMessage);
    assert_eq!(submit("a/test"), Message::ChatMessage);
    assert_eq!(submit("\\test"), Message::ChatMessage);
    assert_eq!(submit("hello /test"), Message::ChatMessage);
}

#[test]
fn text_beyond_ascii_is_read_by_characters() {
    assert_eq!(submit("\u{e9}/test"), Message::ChatMessage);
    assert_eq!(submit("\u{2215}test"), Message::ChatMessage);
    assert_eq!(submit("/t\u{e9}st"), failed());
    assert_eq!(submit("/\u{442}\u{435}\u{441}\u{442}"), failed());
}

#[test]
fn parsing_leaves_the_line_in_place() {
    let descriptor = Descriptor { text: "/test".to_string() };
    let first = descriptor.parse_command();
    let second = descriptor.parse_command();
    assert_eq!(descriptor.text, "/test");
    assert_eq!(first, second);
}

#[test]
fn a_reply_is_not_the_line_itself() {
    match submit("/test") {
        Message::ServerLog(line) => assert_ne!(line, "/test"),
        Message::ChatMessage => panic!("a command was taken for chat"),
    }
    match submit("/bogus") {
        Message::ServerLog(line) => assert_ne!(line, "/bogus"),
        Message::ChatMessage => panic!("a command was taken for chat"),
    }
}
