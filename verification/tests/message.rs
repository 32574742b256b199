use native_host::content::ContentType;
use native_host::frame::{decode_frame, disconnect, encode_frame, Endianness, FrameRead};
use native_host::message::{
    decode_client_message, frame_reply, message_from_members, parse_content_type,
    read_message, reading_goes_on, write_message, ClientMessage, DecodeError, HostMessage,
    Inbound,
};

fn begin(initial_content: &str, content_type: ContentType) -> ClientMessage {
    ClientMessage::Begin { initial_content: initial_content.to_string(), content_type }
}

fn member(name: &str, text: Option<&str>) -> (String, Option<String>) {
    (name.to_string(), text.map(|t| t.to_string()))
}

#[test]
fn begin_is_read_from_its_json_body() {
    let body = br#"{"kind":"begin","initialContent":"hello","contentType":"plain"}"#;
    assert_eq!(decode_client_message(body), Ok(begin("hello", ContentType::Plain)));
    let body = br#"{"kind":"begin","initialContent":"<p>hi</p>","contentType":"html"}"#;
    assert_eq!(decode_client_message(body), Ok(begin("<p>hi</p>", ContentType::Html)));
}

#[test]
fn members_may_come_in_any_order_and_with_white_space() {
    let body = b" { \"contentType\" : \"html\",\n \"initialContent\" : \"a\\nb \\u00e9\", \"kind\" : \"begin\" } ";
    assert_eq!(decode_client_message(body), Ok(begin("a\nb \u{e9}", ContentType::Html)));
}

#[test]
fn members_that_are_not_asked_for_are_ignored() {
    let body = br#"{"kind":"begin","initialContent":"","contentType":"plain","id":7,"tags":["a"]}"#;
    assert_eq!(decode_client_message(body), Ok(begin("", ContentType::Plain)));
}

#[test]
fn body_that_is_no_json_object_is_malformed() {
    let bodies: [&[u8]; 8] = [
        b"",
        b"{",
        b"[]",
        b"\"begin\"",
        b"{\"kind\":\"begin\"",
        b"{\"kind\":\"begin\",}",
        b"{\"kind\":\"begin\"} x",
        &[0xff, 0xfe],
    ];
    for body in bodies {
        assert_eq!(decode_client_message(body), Err(DecodeError::Malformed));
    }
}

#[test]
fn each_decode_error_has_its_input() {
    let cases: [(&[u8], DecodeError); 8] = [
        (br#"{}"#, DecodeError::MissingKind),
        (br#"{"kind":5}"#, DecodeError::MissingKind),
        (br#"{"kind":"end"}"#, DecodeError::UnknownKind),
        (br#"{"kind":"Begin","initialContent":"x","contentType":"plain"}"#, DecodeError::UnknownKind),
        (br#"{"kind":"begin","contentType":"plain"}"#, DecodeError::MissingContent),
        (br#"{"kind":"begin","initialContent":null,"contentType":"plain"}"#, DecodeError::MissingContent),
        (br#"{"kind":"begin","initialContent":"x"}"#, DecodeError::MissingContentType),
        (br#"{"kind":"begin","initialContent":"x","contentType":"Plain"}"#, DecodeError::UnknownContentType),
    ];
    for (body, error) in cases {
        assert_eq!(decode_client_message(body), Err(error));
    }
}

#[test]
fn content_types_have_their_wire_names() {
    assert_eq!(parse_content_type("plain"), Some(ContentType::Plain));
    assert_eq!(parse_content_type("html"), Some(ContentType::Html));
    assert_eq!(parse_content_type("HTML"), None);
    assert_eq!(parse_content_type(""), None);
    assert_eq!(parse_content_type("markdown"), None);
}

#[test]
fn message_is_read_from_members() {
    let members = vec![
        member("contentType", Some("html")),
        member("extra", None),
        member("initialContent", Some("text")),
        member("kind", Some("begin")),
    ];
    assert_eq!(message_from_members(&members), Ok(begin("text", ContentType::Html)));
    assert_eq!(message_from_members(&Vec::new()), Err(DecodeError::MissingKind));
    let members = vec![member("kind", None)];
    assert_eq!(message_from_members(&members), Err(DecodeError::MissingKind));
    let members = vec![member("kind", Some("begin")), member("initialContent", Some("x"))];
    assert_eq!(message_from_members(&members), Err(DecodeError::MissingContentType));
}

#[test]
fn read_message_finds_the_message_in_the_frame() {
    let body = br#"{"kind":"begin","initialContent":"hello","contentType":"plain"}"#;
    for order in [Endianness::Little, Endianness::Big] {
        let frame = encode_frame(order, body).unwrap();
        assert_eq!(
            read_message(order, &frame),
            Inbound::Message(begin("hello", ContentType::Plain))
        );
    }
    let mut frame = vec![63, 0, 0, 0];
    frame.extend_from_slice(body);
    assert_eq!(body.len(), 63);
    assert_eq!(
        read_message(Endianness::Little, &frame),
        Inbound::Message(begin("hello", ContentType::Plain))
    );
}

#[test]
fn read_message_tells_the_ends_of_the_stream_apart() {
    for order in [Endianness::Little, Endianness::Big] {
        assert_eq!(read_message(order, &[]), Inbound::EndOfStream);
        assert_eq!(read_message(order, &[0, 0, 0, 0]), Inbound::Disconnect);
        assert_eq!(read_message(order, &[0, 0]), Inbound::Truncated);
        assert_eq!(read_message(order, &[9, 0, 0, 9, b'{']), Inbound::Truncated);
    }
}

#[test]
fn read_message_reports_a_body_that_is_no_message() {
    let frame = encode_frame(Endianness::Big, b"not json").unwrap();
    assert_eq!(
        read_message(Endianness::Big, &frame),
        Inbound::Malformed(DecodeError::Malformed)
    );
    let frame = encode_frame(Endianness::Big, br#"{"kind":"replaceAll","content":"x"}"#).unwrap();
    assert_eq!(
        read_message(Endianness::Big, &frame),
        Inbound::Malformed(DecodeError::UnknownKind)
    );
}

#[test]
fn replace_all_is_written_as_json_in_a_frame() {
    let message = HostMessage::ReplaceAll { content: "hello world".to_string() };
    let body = br#"{"kind":"replaceAll","content":"hello world"}"#;
    assert_eq!(body.len(), 45);
    let mut expected = vec![45, 0, 0, 0];
    expected.extend_from_slice(body);
    assert_eq!(write_message(Endianness::Little, &message), Ok(expected));
    let mut expected = vec![0, 0, 0, 45];
    expected.extend_from_slice(body);
    assert_eq!(write_message(Endianness::Big, &message), Ok(expected));
}

#[test]
fn content_is_escaped_as_a_json_string() {
    let message = HostMessage::ReplaceAll { content: "a \"b\"\n\\ \u{1} <p>\u{e9}</p>".to_string() };
    let frame = write_message(Endianness::Little, &message).unwrap();
    let body = "{\"kind\":\"replaceAll\",\"content\":\"a \\\"b\\\"\\n\\\\ \\u0001 <p>\u{e9}</p>\"}";
    assert_eq!(decode_frame(Endianness::Little, &frame), FrameRead::Frame(body.as_bytes().to_vec()));
    let empty = HostMessage::ReplaceAll { content: String::new() };
    let frame = write_message(Endianness::Little, &empty).unwrap();
    assert_eq!(&frame[4..], br#"{"kind":"replaceAll","content":""}"#);
}

#[test]
fn frame_reply_wraps_the_literal_it_is_given() {
    let frame = frame_reply(Endianness::Big, "\"x\"").unwrap();
    let mut expected = vec![0, 0, 0, 35];
    expected.extend_from_slice(br#"{"kind":"replaceAll","content":"x"}"#);
    assert_eq!(frame, expected);
}

#[test]
fn disconnect_is_four_zero_bytes() {
    for order in [Endianness::Little, Endianness::Big] {
        assert_eq!(disconnect(order), vec![0, 0, 0, 0]);
        assert_eq!(read_message(order, &disconnect(order)), Inbound::Disconnect);
    }
}

#[test]
fn only_the_first_message_is_followed_by_another_read() {
    assert!(reading_goes_on(false, &Inbound::Message(begin("x", ContentType::Plain))));
    assert!(!reading_goes_on(true, &Inbound::Message(begin("x", ContentType::Plain))));
    assert!(!reading_goes_on(true, &Inbound::Message(begin("", ContentType::Html))));
    for begun in [false, true] {
        assert!(!reading_goes_on(begun, &Inbound::EndOfStream));
        assert!(!reading_goes_on(begun, &Inbound::Disconnect));
        assert!(!reading_goes_on(begun, &Inbound::Truncated));
        assert!(!reading_goes_on(begun, &Inbound::Malformed(DecodeError::Malformed)));
    }
}

#[test]
fn every_control_character_is_escaped() {
    let escapes = [
        "\\u0000", "\\u0001", "\\u0002", "\\u0003", "\\u0004", "\\u0005", "\\u0006", "\\u0007",
        "\\b", "\\t", "\\n", "\\u000b", "\\f", "\\r", "\\u000e", "\\u000f",
        "\\u0010", "\\u0011", "\\u0012", "\\u0013", "\\u0014", "\\u0015", "\\u0016", "\\u0017",
        "\\u0018", "\\u0019", "\\u001a", "\\u001b", "\\u001c", "\\u001d", "\\u001e", "\\u001f",
    ];
    for (code, escape) in escapes.iter().enumerate() {
        let content = char::from_u32(code as u32).unwrap().to_string();
        let frame = write_message(Endianness::Big, &HostMessage::ReplaceAll { content }).unwrap();
        let body = format!("{{\"kind\":\"replaceAll\",\"content\":\"{escape}\"}}");
        assert_eq!(&frame[4..], body.as_bytes());
        assert_eq!(frame[..4], (body.len() as u32).to_be_bytes());
    }
}

#[test]
fn what_needs_no_escape_is_copied() {
    let content = " !#$%&'()*+,-./0:;<=>?@AZ[]^_`az{|}~\u{7f}\u{80}\u{e9}\u{2028}\u{1f600}";
    let message = HostMessage::ReplaceAll { content: content.to_string() };
    let frame = write_message(Endianness::Little, &message).unwrap();
    let body = format!("{{\"kind\":\"replaceAll\",\"content\":\"{content}\"}}");
    assert_eq!(&frame[4..], body.as_bytes());
}

#[test]
fn quote_and_backslash_get_a_backslash() {
    let message = HostMessage::ReplaceAll { content: "\"\\".to_string() };
    let frame = write_message(Endianness::Little, &message).unwrap();
    assert_eq!(&frame[4..], br#"{"kind":"replaceAll","content":"\"\\"}"#);
}

#[test]
fn header_counts_bytes_and_not_characters() {
    let message = HostMessage::ReplaceAll { content: "\u{e9}".to_string() };
    let frame = write_message(Endianness::Little, &message).unwrap();
    assert_eq!(frame[..4], [36, 0, 0, 0]);
    assert_eq!(frame.len(), 40);
    assert_eq!(decode_frame(Endianness::Little, &frame), FrameRead::Frame(frame[4..].to_vec()));
}
