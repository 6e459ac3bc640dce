//! Application messages, and how a message and the payload of its frames
//! determine each other.

use vstd::prelude::*;
use vstd::slice::{slice_subrange, slice_to_vec};
use vstd::utf8::{
    decode_utf8, encode_utf8, encode_utf8_decode_utf8, encode_utf8_valid_utf8, valid_utf8,
};
use crate::endian::{
    be_bytes, be_value, lemma_be_bytes_len, lemma_be_value_of_bytes, lemma_byte_range_2,
    read_u16_be, write_u16_be,
};
use crate::error::ProtocolError;
use crate::frame::{append_bytes, Frame, FrameView, Opcode};

verus! {

/// Why a connection is closed: a status code and a reason in words.
#[derive(Clone, Debug, PartialEq, Eq)]
pub struct CloseData {
    pub status_code: u16,
    pub reason: String,
}

/// A complete message.
#[derive(Clone, Debug, PartialEq, Eq)]
pub enum OwnedMessage {
    /// A text message.
    Text(String),
    /// A message of arbitrary bytes.
    Binary(Vec<u8>),
    /// The end of the conversation, with or without status code and reason.
    Close(Option<CloseData>),
    /// A ping, whose payload the pong repeats.
    Ping(Vec<u8>),
    /// The answer to a ping.
    Pong(Vec<u8>),
}

/// `CloseData` as a mathematical value.
#[verifier::ext_equal]
pub struct CloseView {
    pub status_code: u16,
    pub reason: Seq<char>,
}

/// `OwnedMessage` as a mathematical value.
#[verifier::ext_equal]
pub enum MessageView {
    Text(Seq<char>),
    Binary(Seq<u8>),
    Close(Option<CloseView>),
    Ping(Seq<u8>),
    Pong(Seq<u8>),
}

impl View for CloseData {
    type V = CloseView;

    open spec fn view(&self) -> CloseView {
        CloseView { status_code: self.status_code, reason: self.reason@ }
    }
}

impl View for OwnedMessage {
    type V = MessageView;

    open spec fn view(&self) -> MessageView {
        match self {
            OwnedMessage::Text(text) => MessageView::Text(text@),
            OwnedMessage::Binary(data) => MessageView::Binary(data@),
            OwnedMessage::Close(None) => MessageView::Close(None),
            OwnedMessage::Close(Some(close)) => MessageView::Close(Some(close@)),
            OwnedMessage::Ping(data) => MessageView::Ping(data@),
            OwnedMessage::Pong(data) => MessageView::Pong(data@),
        }
    }
}

/// The opcode that a message is sent under.
pub open spec fn message_opcode(message: MessageView) -> Opcode {
    match message {
        MessageView::Text(_) => Opcode::Text,
        MessageView::Binary(_) => Opcode::Binary,
        MessageView::Close(_) => Opcode::Close,
        MessageView::Ping(_) => Opcode::Ping,
        MessageView::Pong(_) => Opcode::Pong,
    }
}

/// The payload that a message is sent as: a text in UTF-8, bytes as they
/// are, a close as its big-endian status code followed by the reason in
/// UTF-8, or as nothing where it has neither.
pub open spec fn message_payload(message: MessageView) -> Seq<u8> {
    match message {
        MessageView::Text(text) => encode_utf8(text),
        MessageView::Binary(data) => data,
        MessageView::Close(None) => Seq::<u8>::empty(),
        MessageView::Close(Some(close)) => be_bytes(close.status_code as nat, 2) + encode_utf8(
            close.reason,
        ),
        MessageView::Ping(data) => data,
        MessageView::Pong(data) => data,
    }
}

/// The single final frame that carries a message, with the given mask key.
pub open spec fn message_frame(message: MessageView, mask: Option<Seq<u8>>) -> FrameView {
    FrameView {
        fin: true,
        opcode: message_opcode(message),
        mask,
        payload: message_payload(message),
    }
}

/// The message that an opcode and a whole payload stand for. A text must be
/// UTF-8. A close payload is empty, or a status code of two bytes followed
/// by a reason in UTF-8. A continuation stands for no message.
pub open spec fn parse_message(opcode: Opcode, payload: Seq<u8>) -> Result<
    MessageView,
    ProtocolError,
> {
    match opcode {
        Opcode::Continuation => Err(ProtocolError::UnexpectedContinuation),
        Opcode::Text => if valid_utf8(payload) {
            Ok(MessageView::Text(decode_utf8(payload)))
        } else {
            Err(ProtocolError::InvalidUtf8)
        },
        Opcode::Binary => Ok(MessageView::Binary(payload)),
        Opcode::Ping => Ok(MessageView::Ping(payload)),
        Opcode::Pong => Ok(MessageView::Pong(payload)),
        Opcode::Close => if payload.len() == 0 {
            Ok(MessageView::Close(None))
        } else if payload.len() < 2 {
            Err(ProtocolError::InvalidClosePayload)
        } else if valid_utf8(payload.subrange(2, payload.len() as int)) {
            Ok(
                MessageView::Close(
                    Some(
                        CloseView {
                            status_code: be_value(payload.subrange(0, 2)) as u16,
                            reason: decode_utf8(payload.subrange(2, payload.len() as int)),
                        },
                    ),
                ),
            )
        } else {
            Err(ProtocolError::InvalidUtf8)
        },
    }
}

/// Every message is read back from its own opcode and payload.
pub proof fn lemma_parse_message_payload(message: MessageView)
    ensures
        parse_message(message_opcode(message), message_payload(message)) == Ok::<
            MessageView,
            ProtocolError,
        >(message),
{
    match message {
        MessageView::Text(text) => {
            encode_utf8_valid_utf8(text);
            encode_utf8_decode_utf8(text);
        },
        MessageView::Close(Some(close)) => {
            let code = be_bytes(close.status_code as nat, 2);
            let payload = message_payload(message);
            lemma_be_bytes_len(close.status_code as nat, 2);
            lemma_byte_range_2();
            lemma_be_value_of_bytes(close.status_code as nat, 2);
            assert(payload.subrange(0, 2) =~= code);
            assert(payload.subrange(2, payload.len() as int) =~= encode_utf8(close.reason));
            encode_utf8_valid_utf8(close.reason);
            encode_utf8_decode_utf8(close.reason);
        },
        _ => {},
    }
}

/// `String::from_utf8`: the string whose UTF-8 bytes are `bytes`, and
/// `None` exactly where `bytes` are not UTF-8.
#[verifier::external_body]
fn string_from_utf8(bytes: Vec<u8>) -> (text: Option<String>)
    ensures
        match text {
            Some(s) => valid_utf8(bytes@) && encode_utf8(s@) == bytes@,
            None => !valid_utf8(bytes@),
        },
{
    match String::from_utf8(bytes) {
        Ok(s) => Some(s),
        Err(_) => None,
    }
}

/// The text that `bytes` encode, or the failure `InvalidUtf8`.
pub fn text_from_bytes(bytes: Vec<u8>) -> (r: Result<String, ProtocolError>)
    ensures
        match r {
            Ok(text) => valid_utf8(bytes@) && text@ == decode_utf8(bytes@),
            Err(e) => !valid_utf8(bytes@) && e == ProtocolError::InvalidUtf8,
        },
{
    match string_from_utf8(bytes) {
        Some(text) => {
            proof {
                encode_utf8_decode_utf8(text@);
            }
            Ok(text)
        },
        None => Err(ProtocolError::InvalidUtf8),
    }
}

impl CloseData {
    /// Close data of the given status code and reason.
    pub fn new(status_code: u16, reason: String) -> (close: CloseData)
        ensures
            close@ == (CloseView { status_code, reason: reason@ }),
    {
        CloseData { status_code, reason }
    }
}

impl OwnedMessage {
    /// The opcode that the message is sent under.
    pub fn opcode(&self) -> (opcode: Opcode)
        ensures
            opcode == message_opcode(self@),
    {
        match self {
            OwnedMessage::Text(_) => Opcode::Text,
            OwnedMessage::Binary(_) => Opcode::Binary,
            OwnedMessage::Close(_) => Opcode::Close,
            OwnedMessage::Ping(_) => Opcode::Ping,
            OwnedMessage::Pong(_) => Opcode::Pong,
        }
    }

    /// The payload that the message is sent as.
    pub fn payload(&self) -> (payload: Vec<u8>)
        ensures
            payload@ == message_payload(self@),
    {
        match self {
            OwnedMessage::Text(text) => slice_to_vec(text.as_str().as_bytes()),
            OwnedMessage::Binary(data) => slice_to_vec(data.as_slice()),
            OwnedMessage::Close(None) => Vec::new(),
            OwnedMessage::Close(Some(close)) => {
                let code = write_u16_be(close.status_code);
                let mut payload = slice_to_vec(code.as_slice());
                append_bytes(&mut payload, close.reason.as_str().as_bytes());
                payload
            },
            OwnedMessage::Ping(data) => slice_to_vec(data.as_slice()),
            OwnedMessage::Pong(data) => slice_to_vec(data.as_slice()),
        }
    }

    /// The single final frame that carries the message, with the given
    /// mask key.
    pub fn to_frame(&self, mask: Option<[u8; 4]>) -> (frame: Frame)
        ensures
            frame.mask == mask,
            frame@ == message_frame(self@, frame@.mask),
    {
        Frame { fin: true, opcode: self.opcode(), mask, payload: self.payload() }
    }

    /// The message that `opcode` and the whole payload stand for.
    pub fn from_parts(opcode: Opcode, payload: Vec<u8>) -> (r: Result<OwnedMessage, ProtocolError>)
        ensures
            match parse_message(opcode, payload@) {
                Ok(message) => r matches Ok(got) && got@ == message,
                Err(e) => r matches Err(got) && got == e,
            },
    {
        match opcode {
            Opcode::Continuation => Err(ProtocolError::UnexpectedContinuation),
            Opcode::Text => match text_from_bytes(payload) {
                Ok(text) => Ok(OwnedMessage::Text(text)),
                Err(e) => Err(e),
            },
            Opcode::Binary => Ok(OwnedMessage::Binary(payload)),
            Opcode::Ping => Ok(OwnedMessage::Ping(payload)),
            Opcode::Pong => Ok(OwnedMessage::Pong(payload)),
            Opcode::Close => {
                let len: usize = payload.len();
                if len == 0 {
                    Ok(OwnedMessage::Close(None))
                } else if len < 2 {
                    Err(ProtocolError::InvalidClosePayload)
                } else {
                    let status_code = read_u16_be(payload.as_slice());
                    let tail = slice_to_vec(slice_subrange(payload.as_slice(), 2, len));
                    match text_from_bytes(tail) {
                        Ok(reason) => Ok(OwnedMessage::Close(Some(CloseData { status_code, reason }))),
                        Err(e) => Err(e),
                    }
                }
            },
        }
    }

    /// Whether the message is a close, a ping or a pong.
    pub fn is_control(&self) -> (control: bool)
        ensures
            control == message_opcode(self@).spec_is_control(),
    {
        match self {
            OwnedMessage::Close(_) | OwnedMessage::Ping(_) | OwnedMessage::Pong(_) => true,
            _ => false,
        }
    }

    /// Whether the message is a text or a binary message.
    pub fn is_data(&self) -> (data: bool)
        ensures
            data == !message_opcode(self@).spec_is_control(),
    {
        !self.is_control()
    }

    /// Whether the message ends the conversation.
    pub fn is_close(&self) -> (close: bool)
        ensures
            close == (self@ is Close),
    {
        match self {
            OwnedMessage::Close(_) => true,
            _ => false,
        }
    }
}

} // verus!
