//! The messages that travel in frames, and their JSON bodies.

use crate::content::ContentType;
use crate::frame::{decode_frame, decoded, encode_frame, frame_bytes, valid_body};
use crate::frame::{Decoded, Endianness, FrameRead};
use std::collections::BTreeMap;
use vstd::prelude::*;
use vstd::string::*;
use vstd::utf8::encode_utf8;

verus! {

/// A message from the controller.
#[derive(Clone, Debug, PartialEq, Eq)]
pub enum ClientMessage {
    /// Starts the session with this content. A session accepts it once.
    Begin { initial_content: String, content_type: ContentType },
}

/// The mathematical content of a [`ClientMessage`].
pub enum ClientMessageView {
    Begin { initial_content: Seq<char>, content_type: ContentType },
}

impl View for ClientMessage {
    type V = ClientMessageView;

    open spec fn view(&self) -> ClientMessageView {
        match self {
            ClientMessage::Begin { initial_content, content_type } => ClientMessageView::Begin {
                initial_content: initial_content@,
                content_type: *content_type,
            },
        }
    }
}

/// A message to the controller.
#[derive(Clone, Debug, PartialEq, Eq)]
pub enum HostMessage {
    /// The authoritative content is now exactly this text.
    ReplaceAll { content: String },
}

/// The mathematical content of a [`HostMessage`].
pub enum HostMessageView {
    ReplaceAll { content: Seq<char> },
}

impl View for HostMessage {
    type V = HostMessageView;

    open spec fn view(&self) -> HostMessageView {
        match self {
            HostMessage::ReplaceAll { content } => HostMessageView::ReplaceAll { content: content@ },
        }
    }
}

/// Why a frame's body is not a message.
#[derive(Clone, Copy, Debug, PartialEq, Eq, Structural)]
pub enum DecodeError {
    /// The body is not a JSON object.
    Malformed,
    /// The object has no text under `kind`.
    MissingKind,
    /// The text under `kind` names no message.
    UnknownKind,
    /// The object has no text under `initialContent`.
    MissingContent,
    /// The object has no text under `contentType`.
    MissingContentType,
    /// The text under `contentType` names no content type.
    UnknownContentType,
}

/// What a read from the controller's channel brought.
#[derive(Clone, Debug, PartialEq, Eq)]
pub enum Inbound {
    /// A well-formed message.
    Message(ClientMessage),
    /// The stream ended between two frames.
    EndOfStream,
    /// The disconnect sentinel.
    Disconnect,
    /// The stream ended inside a frame.
    Truncated,
    /// A whole frame whose body is not a message.
    Malformed(DecodeError),
}

/// The mathematical content of an [`Inbound`].
pub enum InboundView {
    Message(ClientMessageView),
    EndOfStream,
    Disconnect,
    Truncated,
    Malformed(DecodeError),
}

impl View for Inbound {
    type V = InboundView;

    open spec fn view(&self) -> InboundView {
        match self {
            Inbound::Message(message) => InboundView::Message(message@),
            Inbound::EndOfStream => InboundView::EndOfStream,
            Inbound::Disconnect => InboundView::Disconnect,
            Inbound::Truncated => InboundView::Truncated,
            Inbound::Malformed(error) => InboundView::Malformed(*error),
        }
    }
}

/// The members of a JSON object, by name: each with its text where its value
/// is a JSON string, and with nothing where it is anything else.
pub type Members = Vec<(String, Option<String>)>;

/// The members of the JSON object that `body` holds, in the order of their
/// names, as `serde_json::from_slice` reads them; nothing where `body` is not
/// one JSON object and white space.
pub uninterp spec fn json_members(body: Seq<u8>) -> Option<Seq<(Seq<char>, Option<Seq<char>>)>>;

/// How one character stands inside a JSON string literal. The quote and the
/// backslash get a backslash before them; backspace, tab, line feed, form
/// feed and carriage return get their letter; every other character below
/// the space is written as `\u00` and its two hexadecimal digits, in lower
/// case; all else stands for itself.
pub open spec fn escaped_char(c: char) -> Seq<char> {
    let code = c as u32;
    if c == '"' {
        seq!['\\', '"']
    } else if c == '\\' {
        seq!['\\', '\\']
    } else if code == 0x08 {
        seq!['\\', 'b']
    } else if code == 0x09 {
        seq!['\\', 't']
    } else if code == 0x0a {
        seq!['\\', 'n']
    } else if code == 0x0c {
        seq!['\\', 'f']
    } else if code == 0x0d {
        seq!['\\', 'r']
    } else if code < 0x20 {
        seq![
            '\\',
            'u',
            '0',
            '0',
            "0123456789abcdef"@[(code / 16) as int],
            "0123456789abcdef"@[(code % 16) as int],
        ]
    } else {
        seq![c]
    }
}

/// The characters of `text`, each as it stands inside a JSON string literal.
pub open spec fn escaped(text: Seq<char>) -> Seq<char>
    decreases text.len(),
{
    if text.len() == 0 {
        Seq::empty()
    } else {
        escaped(text.drop_last()) + escaped_char(text.last())
    }
}

/// The JSON string literal for `text`: its escaped characters between two
/// quotes.
pub open spec fn json_string_literal(text: Seq<char>) -> Seq<char> {
    seq!['"'] + escaped(text) + seq!['"']
}

/// `serde_json::from_slice`, reading a map from names to JSON values: parses
/// `body` as one JSON object. Each member is handed out with its text where
/// `Value::as_str` finds a string. The result depends on the bytes alone.
#[verifier::external_body]
fn parse_object(body: &[u8]) -> (members: Option<Members>)
    ensures
        members.deep_view() == json_members(body@),
{
    let parsed: Result<BTreeMap<String, serde_json::Value>, serde_json::Error> =
        serde_json::from_slice(body);
    match parsed {
        Ok(map) => Some(
            map.into_iter().map(|(name, value)| (name, value.as_str().map(String::from))).collect(),
        ),
        Err(_) => None,
    }
}

/// `serde_json::to_string` on a string slice: the JSON string literal for
/// `text`, written into a vector in memory. The crate escapes by a table of
/// bytes that marks only the quote, the backslash and the bytes below the
/// space, and copies the rest. On a string slice the call reports no error:
/// it passes on only those of its writer, and writing to a vector has none.
#[verifier::external_body]
fn quote_json(text: &str) -> (quoted: String)
    ensures
        quoted@ == json_string_literal(text@),
{
    serde_json::to_string(text).expect("a string slice is always written as JSON")
}

/// The text of the first member called `name`, if there is such a member and
/// its value is a string.
pub open spec fn member_text(
    members: Seq<(Seq<char>, Option<Seq<char>>)>,
    name: Seq<char>,
) -> Option<Seq<char>>
    decreases members.len(),
{
    if members.len() == 0 {
        None
    } else if members.first().0 == name {
        members.first().1
    } else {
        member_text(members.drop_first(), name)
    }
}

/// The content type that a name on the wire stands for.
pub open spec fn content_type_of(name: Seq<char>) -> Option<ContentType> {
    if name == "plain"@ {
        Some(ContentType::Plain)
    } else if name == "html"@ {
        Some(ContentType::Html)
    } else {
        None
    }
}

/// The message that the members of a JSON object spell: `kind` is `begin`,
/// `initialContent` is a text and `contentType` names a content type. Other
/// members are ignored.
pub open spec fn message_of(members: Seq<(Seq<char>, Option<Seq<char>>)>) -> Result<
    ClientMessageView,
    DecodeError,
> {
    match member_text(members, "kind"@) {
        None => Err(DecodeError::MissingKind),
        Some(kind) => if kind != "begin"@ {
            Err(DecodeError::UnknownKind)
        } else {
            match member_text(members, "initialContent"@) {
                None => Err(DecodeError::MissingContent),
                Some(initial_content) => match member_text(members, "contentType"@) {
                    None => Err(DecodeError::MissingContentType),
                    Some(name) => match content_type_of(name) {
                        None => Err(DecodeError::UnknownContentType),
                        Some(content_type) => Ok(
                            ClientMessageView::Begin { initial_content, content_type },
                        ),
                    },
                },
            }
        },
    }
}

/// The message that a frame's body holds.
pub open spec fn decoded_message(body: Seq<u8>) -> Result<ClientMessageView, DecodeError> {
    match json_members(body) {
        None => Err(DecodeError::Malformed),
        Some(members) => message_of(members),
    }
}

/// What a read brings, given the bytes that the stream held: the frame at
/// their start, and the message in its body.
pub open spec fn inbound_of(order: Endianness, input: Seq<u8>) -> InboundView {
    match decoded(order, input) {
        Decoded::EndOfStream => InboundView::EndOfStream,
        Decoded::Disconnect => InboundView::Disconnect,
        Decoded::Incomplete { .. } => InboundView::Truncated,
        Decoded::Frame(body) => match decoded_message(body) {
            Ok(message) => InboundView::Message(message),
            Err(error) => InboundView::Malformed(error),
        },
    }
}

/// The mathematical content of a decoding's result.
pub open spec fn decoding_view(result: Result<ClientMessage, DecodeError>) -> Result<
    ClientMessageView,
    DecodeError,
> {
    match result {
        Ok(message) => Ok(message@),
        Err(error) => Err(error),
    }
}

/// Looks a member up by name.
fn find_text(members: &Members, name: &str) -> (text: Option<String>)
    ensures
        text.deep_view() == member_text(members.deep_view(), name@),
{
    let wanted = String::from_str(name);
    let mut at: usize = 0;
    assert(members.deep_view().skip(0) =~= members.deep_view());
    while at < members.len()
        invariant
            at <= members.len(),
            wanted@ == name@,
            member_text(members.deep_view(), name@) == member_text(
                members.deep_view().skip(at as int),
                name@,
            ),
        decreases members.len() - at,
    {
        let ghost rest = members.deep_view().skip(at as int);
        assert(rest.first() == members.deep_view()[at as int]);
        assert(rest.drop_first() =~= members.deep_view().skip(at + 1));
        if members[at].0 == wanted {
            return match &members[at].1 {
                Some(text) => Some(text.clone()),
                None => None,
            };
        }
        at += 1;
    }
    None
}

/// Reads a content type's name as it stands on the wire.
pub fn parse_content_type(name: &str) -> (content_type: Option<ContentType>)
    ensures
        content_type == content_type_of(name@),
{
    let name = String::from_str(name);
    if name == String::from_str("plain") {
        Some(ContentType::Plain)
    } else if name == String::from_str("html") {
        Some(ContentType::Html)
    } else {
        None
    }
}

/// Reads a message from the members of a JSON object.
pub fn message_from_members(members: &Members) -> (result: Result<ClientMessage, DecodeError>)
    ensures
        decoding_view(result) == message_of(members.deep_view()),
{
    let kind = match find_text(members, "kind") {
        Some(kind) => kind,
        None => return Err(DecodeError::MissingKind),
    };
    if kind != String::from_str("begin") {
        return Err(DecodeError::UnknownKind);
    }
    let initial_content = match find_text(members, "initialContent") {
        Some(text) => text,
        None => return Err(DecodeError::MissingContent),
    };
    let name = match find_text(members, "contentType") {
        Some(name) => name,
        None => return Err(DecodeError::MissingContentType),
    };
    match parse_content_type(name.as_str()) {
        Some(content_type) => Ok(ClientMessage::Begin { initial_content, content_type }),
        None => Err(DecodeError::UnknownContentType),
    }
}

/// Reads a message from the body of a frame.
pub fn decode_client_message(body: &[u8]) -> (result: Result<ClientMessage, DecodeError>)
    ensures
        decoding_view(result) == decoded_message(body@),
{
    match parse_object(body) {
        Some(members) => message_from_members(&members),
        None => Err(DecodeError::Malformed),
    }
}

/// Reads what the controller sent from the bytes that its stream held: a
/// whole frame with a message in it, the disconnect sentinel, the end of the
/// stream, or something that is neither.
pub fn read_message(order: Endianness, input: &[u8]) -> (inbound: Inbound)
    ensures
        inbound@ == inbound_of(order, input@),
{
    match decode_frame(order, input) {
        FrameRead::EndOfStream => Inbound::EndOfStream,
        FrameRead::Disconnect => Inbound::Disconnect,
        FrameRead::Incomplete { .. } => Inbound::Truncated,
        FrameRead::Frame(body) => match decode_client_message(body.as_slice()) {
            Ok(message) => Inbound::Message(message),
            Err(error) => Inbound::Malformed(error),
        },
    }
}

/// Whether the channel is read again after a read: only the first message
/// is followed by another read. A message after the first is a protocol
/// error, and like the end of the stream, the sentinel and whatever is no
/// message, it is the last thing read.
pub open spec fn read_again(begun: bool, inbound: InboundView) -> bool {
    !begun && inbound is Message
}

/// Decides whether the channel is read again after this read. `begun` says
/// whether a message was read before.
pub fn reading_goes_on(begun: bool, inbound: &Inbound) -> (goes_on: bool)
    ensures
        goes_on == read_again(begun, inbound@),
{
    match inbound {
        Inbound::Message(_) => !begun,
        _ => false,
    }
}

/// Why a message cannot be sent.
#[derive(Clone, Copy, Debug, PartialEq, Eq, Structural)]
pub enum WriteError {
    /// The body is longer than a frame's header can say.
    TooLong,
}

/// The JSON text of a `replaceAll` message whose content, already written as
/// a JSON string literal, is `quoted`.
pub open spec fn reply_text(quoted: Seq<char>) -> Seq<char> {
    "{\"kind\":\"replaceAll\",\"content\":"@ + quoted + "}"@
}

/// The body of a `replaceAll` message: its JSON text in UTF-8.
pub open spec fn reply_body(quoted: Seq<char>) -> Seq<u8> {
    encode_utf8(reply_text(quoted))
}

/// The body of a message is never empty.
pub proof fn lemma_reply_body_not_empty(quoted: Seq<char>)
    ensures
        reply_body(quoted).len() > 0,
{
    reveal_strlit("{\"kind\":\"replaceAll\",\"content\":");
    let text = reply_text(quoted);
    assert(text.len() > 0);
    assert(encode_utf8(text) == vstd::utf8::encode_scalar(text[0] as u32) + encode_utf8(
        text.drop_first(),
    ));
}

/// Frames a `replaceAll` message whose content is already written as the
/// JSON string literal `quoted`.
pub fn frame_reply(order: Endianness, quoted: &str) -> (result: Result<Vec<u8>, WriteError>)
    ensures
        reply_body(quoted@).len() > u32::MAX ==> result == Err::<Vec<u8>, WriteError>(
            WriteError::TooLong,
        ),
        reply_body(quoted@).len() <= u32::MAX ==> result is Ok && result.unwrap()@ == frame_bytes(
            order,
            reply_body(quoted@),
        ),
{
    let mut text = String::from_str("{\"kind\":\"replaceAll\",\"content\":");
    text.append(quoted);
    text.append("}");
    proof {
        lemma_reply_body_not_empty(quoted@);
    }
    match encode_frame(order, text.as_str().as_bytes()) {
        Ok(frame) => Ok(frame),
        Err(_) => Err(WriteError::TooLong),
    }
}

/// The body of a message to the controller: its JSON text in UTF-8.
pub open spec fn message_body(message: HostMessageView) -> Seq<u8> {
    match message {
        HostMessageView::ReplaceAll { content } => reply_body(json_string_literal(content)),
    }
}

/// Frames a message to the controller: the header, then the message as JSON.
/// Every message whose body fits in a frame is framed.
pub fn write_message(order: Endianness, message: &HostMessage) -> (result: Result<
    Vec<u8>,
    WriteError,
>)
    ensures
        message_body(message@).len() <= u32::MAX ==> result is Ok && result.unwrap()@
            == frame_bytes(order, message_body(message@)),
        message_body(message@).len() > u32::MAX ==> result == Err::<Vec<u8>, WriteError>(
            WriteError::TooLong,
        ),
{
    let HostMessage::ReplaceAll { content } = message;
    let quoted = quote_json(content.as_str());
    frame_reply(order, quoted.as_str())
}

/// A message that is framed comes back whole when its frame is decoded,
/// whatever follows it in the stream.
pub proof fn lemma_message_frame_round_trip(
    order: Endianness,
    message: HostMessageView,
    rest: Seq<u8>,
)
    requires
        message_body(message).len() <= u32::MAX,
    ensures
        valid_body(message_body(message)),
        decoded(order, frame_bytes(order, message_body(message)) + rest) == Decoded::Frame(
            message_body(message),
        ),
{
    let HostMessageView::ReplaceAll { content } = message;
    lemma_reply_body_not_empty(json_string_literal(content));
    crate::frame::lemma_frame_round_trip(order, message_body(message), rest);
}

} // verus!
