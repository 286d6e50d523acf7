use embedded_recruitment_task::client::services::echo::{conclude, prepare};
use embedded_recruitment_task::proto::echo::{EchoRequest, EchoResponse};
use embedded_recruitment_task::rules::{check_echo, EMPTY_MESSAGE};
use embedded_recruitment_task::server::services::EchoServer;
use embedded_recruitment_task::status::{Code, Status};
use embedded_recruitment_task::text::blank;

// One call: what the client sends, what the server answers to it, and what
// the client hands to the caller.
fn echo(message: &str) -> Result<String, Status> {
    let request = prepare(message.to_string())?;
    conclude(EchoServer::default().echo(request))
}

#[test]
fn test_echo_service() {
    let service = EchoServer::default();

    let response = service
        .echo(EchoRequest { message: "test".into() })
        .unwrap();
    assert_eq!(response.message, "test");

    let err = service
        .echo(EchoRequest { message: "   ".into() })
        .unwrap_err();
    assert_eq!(err.code(), Code::InvalidArgument);
}

#[test]
fn test_echo_empty_message() {
    let err = prepare("".to_string()).unwrap_err();
    assert_eq!(err.code(), Code::InvalidArgument);
    assert!(err.message().contains("empty message"));

    let err = prepare("    ".to_string()).unwrap_err();
    assert_eq!(err.code(), Code::InvalidArgument);
    assert!(err.message().contains("empty message"));
}

#[test]
fn test_echo_simple() {
    let test_msg = "hello";
    let response = echo(test_msg).expect("Echo request failed");
    assert_eq!(response, test_msg);
}

#[test]
fn test_echo_unicode() {
    let test_cases = vec![
        ("Emoji Test", "Hello \u{F8FF}\u{FC}\u{E5}\u{E7} \u{F8FF}\u{FC}\u{F6}\u{C4} \u{F8FF}\u{FC}\u{ED}\u{AA}"),
        ("RTL Text", "\u{FF}\u{3C0}\u{FF}\u{AE}\u{FF}\u{D8}\u{FF}\u{DF}\u{178}\u{D1}\u{FF}\u{B1}\u{FF}\u{2260}\u{178}\u{D6}\u{178}\u{DC}"),
        ("CJK Text", "\u{2030}\u{3A9}\u{2020}\u{C2}\u{2022}\u{3A9}\u{D4}\u{BA}\u{E5}\u{2030}\u{220F}\u{F1}\u{C1}\u{EF}\u{E5}"),
        ("Mixed Scripts", "Hello \u{178}\u{D6}\u{FF}\u{B1}\u{FF}\u{2260}\u{FF}\u{AE}\u{FF}\u{DF} \u{2030}\u{3A9}\u{2020}\u{C2}\u{2022}\u{3A9}"),
        ("Unicode Escapes", "Hello\u{1F600}\u{1F602}"),
    ];
    for (name, msg) in test_cases {
        let response = echo(msg).expect(&format!("{} failed", name));
        assert_eq!(response, msg, "{} failed equality check", name);
    }
}

#[test]
fn echo_of_several_scripts() {
    let test_cases = vec![
        ("Emoji", "Hello \u{1F30D} \u{1F680} \u{1F4BB}"),
        ("RTL", "\u{639}\u{628}\u{62F}\u{627}\u{644}\u{631}\u{62D}\u{645}\u{646}"),
        ("CJK", "\u{4F60}\u{597D}\u{FF0C}\u{4E16}\u{754C}"),
        ("Mixed", "Hello \u{645}\u{631}\u{62D}\u{628}\u{627} \u{4F60}\u{597D}"),
    ];
    for (name, msg) in test_cases {
        let response = echo(msg).expect(&format!("{} failed", name));
        assert_eq!(response, msg, "{} failed equality check", name);
    }
}

// The characters with the Unicode property White_Space.
fn in_white_space_table(c: char) -> bool {
    matches!(
        c,
        '\u{9}'..='\u{d}'
            | ' '
            | '\u{85}'
            | '\u{a0}'
            | '\u{1680}'
            | '\u{2000}'..='\u{200a}'
            | '\u{2028}'
            | '\u{2029}'
            | '\u{202f}'
            | '\u{205f}'
            | '\u{3000}'
    )
}

#[test]
fn every_character_is_judged_by_the_table() {
    let mut white = 0;
    for code in 0..=0x10FFFFu32 {
        if let Some(c) = char::from_u32(code) {
            let mut buffer = [0u8; 4];
            let text: &str = c.encode_utf8(&mut buffer);
            assert_eq!(blank(text), in_white_space_table(c), "U+{:X}", code);
            assert_eq!(c.is_whitespace(), in_white_space_table(c), "U+{:X}", code);
            if blank(text) {
                white += 1;
            }
        }
    }
    assert_eq!(white, 25);
}

#[test]
fn test_echo_formatting() {
    let test_cases = vec![
        ("Control Chars", "Hello\nWorld\tTab\rReturn"),
        ("Whitespace", "Hello    World    "),
        ("Zero Bytes", "Hello\0World\0"),
        ("Mixed Format", "Line1\n  Line2\r\n\tLine3"),
        ("JSON-like", r#"{"key": "value"}"#),
    ];
    for (name, msg) in test_cases {
        let response = echo(msg).expect(&format!("{} failed", name));
        assert_eq!(response, msg, "{} failed equality check", name);
    }
}

#[test]
fn test_echo_long_message() {
    let long_msg = "a".repeat(1000000);
    let response = echo(&long_msg).expect("Long message echo failed");
    assert_eq!(response, long_msg);
}

#[test]
fn blank_agrees_with_trim() {
    let samples = [
        "",
        " ",
        "\t\n\r",
        "\u{85}\u{A0}\u{1680}\u{2000}\u{200A}\u{2028}\u{2029}\u{202F}\u{205F}\u{3000}",
        "\0",
        " \0 ",
        "a",
        "  a",
        "a  ",
        "\u{200B}",
        "\u{180E}",
        "\u{FEFF}",
        " \u{4F60} ",
    ];
    for sample in samples {
        assert_eq!(blank(sample), sample.trim().is_empty(), "{:?}", sample);
    }
}

#[test]
fn blank_text_of_a_million_spaces() {
    let spaces = " ".repeat(1000000);
    assert!(blank(&spaces));
    let err = echo(&spaces).unwrap_err();
    assert_eq!(err.code(), Code::InvalidArgument);
    assert_eq!(err.message(), EMPTY_MESSAGE);
}

#[test]
fn null_character_alone_is_echoed() {
    assert_eq!(echo("\0").unwrap(), "\0");
}

#[test]
fn blank_message_is_rejected_on_both_sides() {
    for message in ["", " ", "\n", "\t \r\n", "\u{3000}"] {
        let client = prepare(message.to_string()).unwrap_err();
        assert_eq!(client.code(), Code::InvalidArgument);
        assert_eq!(client.message(), "empty message is not allowed");

        let server = EchoServer::default()
            .echo(EchoRequest { message: message.to_string() })
            .unwrap_err();
        assert_eq!(server.code(), Code::InvalidArgument);
        assert_eq!(server.message(), "empty message is not allowed");

        assert!(check_echo(message).is_err());
    }
}

#[test]
fn conclude_hands_the_reply_on() {
    let ok = conclude(Ok(EchoResponse { message: "pong".to_string() }));
    assert_eq!(ok.unwrap(), "pong");

    let failed = conclude(Err(Status::new(Code::Unavailable, "connection refused")));
    let status = failed.unwrap_err();
    assert_eq!(status.code(), Code::Unavailable);
    assert_eq!(status.message(), "connection refused");
}
