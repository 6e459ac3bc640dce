//! The codec of one connection: from the bytes of the stream to messages,
//! and from messages to bytes.

use vstd::prelude::*;
use vstd::slice::slice_subrange;
use crate::assembler::{assemble_step, is_outcome, Assembler, AssemblerState, Outcome};
use crate::error::ProtocolError;
use crate::frame::{decode, decode_spec, encode_spec, frame_check, lemma_decode_encode, Decoded};
use crate::message::{lemma_parse_message_payload, message_frame, MessageView, OwnedMessage};
use crate::ws::{sent_as, Message};

verus! {

/// The side of the connection that the codec is on. A client masks every
/// frame it sends; a server masks none.
#[derive(Clone, Copy, Debug, PartialEq, Eq, Structural)]
pub enum Context {
    Server,
    Client,
}

impl Context {
    /// Whether this side masks the frames it sends.
    pub open spec fn spec_masks(self) -> bool {
        self == Context::Client
    }

    /// Whether this side masks the frames it sends.
    #[verifier::when_used_as_spec(spec_masks)]
    pub fn masks(self) -> (masked: bool)
        ensures
            masked == self.spec_masks(),
    {
        match self {
            Context::Client => true,
            Context::Server => false,
        }
    }
}

/// What the front of a byte stream gives to an assembler in `state`: the
/// state afterwards, the number of bytes taken, and the outcome. Whole frames
/// are taken one after the other until one gives a message or a failure;
/// bytes that are not yet a whole frame are left in the stream.
pub open spec fn decode_stream(state: AssemblerState, bytes: Seq<u8>) -> (
    AssemblerState,
    nat,
    Outcome,
)
    decreases bytes.len(),
{
    match decode_spec(bytes) {
        Decoded::Incomplete => (state, 0, Ok(None)),
        Decoded::Invalid(e) => (AssemblerState::Idle, 0, Err(e)),
        Decoded::Complete { frame, consumed } => {
            let (next, outcome) = assemble_step(state, frame);
            if outcome == Ok::<Option<MessageView>, ProtocolError>(None) {
                let (last, more, later) = decode_stream(next, bytes.skip(consumed as int));
                (last, consumed + more, later)
            } else {
                (next, consumed, outcome)
            }
        },
    }
}

/// What the front of a byte stream gives once the stream has ended: as
/// `decode_stream`, but bytes that are left and are no whole frame are the
/// failure `IncompleteFrame`.
pub open spec fn decode_stream_eof(state: AssemblerState, bytes: Seq<u8>) -> (
    AssemblerState,
    nat,
    Outcome,
) {
    let (last, taken, outcome) = decode_stream(state, bytes);
    if outcome == Ok::<Option<MessageView>, ProtocolError>(None) && taken
        < bytes.len() {
        (AssemblerState::Idle, taken, Err(ProtocolError::IncompleteFrame))
    } else {
        (last, taken, outcome)
    }
}

/// The codec of one connection.
pub struct MessageCodec {
    context: Context,
    assembler: Assembler,
}

impl View for MessageCodec {
    type V = AssemblerState;

    closed spec fn view(&self) -> AssemblerState {
        self.assembler@
    }
}

impl MessageCodec {
    /// The side of the connection that the codec is on.
    pub closed spec fn spec_context(&self) -> Context {
        self.context
    }

    /// A codec for the given side, with no message in progress.
    pub fn default(context: Context) -> (codec: MessageCodec)
        ensures
            codec@ == AssemblerState::Idle,
            codec.spec_context() == context,
    {
        MessageCodec { context, assembler: Assembler::new() }
    }

    /// The side of the connection that the codec is on.
    #[verifier::when_used_as_spec(spec_context)]
    pub fn context(&self) -> (context: Context)
        ensures
            context == self.spec_context(),
    {
        self.context
    }

    /// Takes whole frames from the front of `src` until one gives a message
    /// or a failure. Returns the number of bytes taken, which the caller
    /// removes from its buffer, and the message, `None` where more bytes are
    /// needed.
    pub fn decode(&mut self, src: &[u8]) -> (r: (usize, Result<Option<OwnedMessage>, ProtocolError>))
        ensures
            final(self)@ == decode_stream(old(self)@, src@).0,
            r.0 == decode_stream(old(self)@, src@).1,
            is_outcome(r.1, decode_stream(old(self)@, src@).2),
            final(self).spec_context() == old(self).spec_context(),
    {
        let mut at: usize = 0;
        assert(src@.skip(0) =~= src@);
        loop
            invariant
                at <= src.len(),
                self.spec_context() == old(self).spec_context(),
                decode_stream(old(self)@, src@).0 == decode_stream(self@, src@.skip(at as int)).0,
                decode_stream(old(self)@, src@).1 == at + decode_stream(
                    self@,
                    src@.skip(at as int),
                ).1,
                decode_stream(old(self)@, src@).2 == decode_stream(self@, src@.skip(at as int)).2,
            decreases src.len() - at,
        {
            let rest = slice_subrange(src, at, src.len());
            assert(rest@ =~= src@.skip(at as int));
            match decode(rest) {
                Err(e) => {
                    self.assembler = Assembler::new();
                    return (at, Err(e));
                },
                Ok(None) => {
                    return (at, Ok(None));
                },
                Ok(Some((frame, n))) => {
                    let out = self.assembler.push(&frame);
                    match out {
                        Ok(None) => {
                            assert(src@.skip(at as int).skip(n as int) =~= src@.skip(at + n));
                            at = at + n;
                        },
                        _ => {
                            return (at + n, out);
                        },
                    }
                },
            }
        }
    }

    /// As `decode`, for the bytes that are left when the stream has ended:
    /// bytes that are no whole frame are the failure `IncompleteFrame`.
    pub fn decode_eof(&mut self, src: &[u8]) -> (r: (
        usize,
        Result<Option<OwnedMessage>, ProtocolError>,
    ))
        ensures
            final(self)@ == decode_stream_eof(old(self)@, src@).0,
            r.0 == decode_stream_eof(old(self)@, src@).1,
            is_outcome(r.1, decode_stream_eof(old(self)@, src@).2),
            final(self).spec_context() == old(self).spec_context(),
    {
        let (taken, out) = self.decode(src);
        match out {
            Ok(None) => {
                if taken < src.len() {
                    self.assembler = Assembler::new();
                    (taken, Err(ProtocolError::IncompleteFrame))
                } else {
                    (taken, Ok(None))
                }
            },
            _ => (taken, out),
        }
    }

    /// Appends `item` to `dst` as one frame with the given mask key. A
    /// message whose frame breaks a rule of `frame_check` is refused, and
    /// `dst` is left as it was.
    pub fn encode_with_mask(item: &OwnedMessage, mask: Option<[u8; 4]>, dst: &mut Vec<u8>) -> (r:
        Result<(), ProtocolError>)
        ensures
            match r {
                Ok(()) => frame_check(message_frame(item@, None)) is Ok && final(dst)@ == old(dst)@
                    + encode_spec(
                    message_frame(
                        item@,
                        match mask {
                            Some(key) => Some(key@),
                            None => None,
                        },
                    ),
                ),
                Err(e) => frame_check(message_frame(item@, None)) == Err::<(), ProtocolError>(e)
                    && final(dst)@ == old(dst)@,
            },
    {
        let frame = item.to_frame(mask);
        frame.write_to(dst)
    }

    /// Appends `item` to `dst` as one frame: masked with a fresh random key
    /// on the client side, unmasked on the server side.
    pub fn encode(&self, item: &OwnedMessage, dst: &mut Vec<u8>) -> (r: Result<(), ProtocolError>)
        ensures
            match r {
                Ok(()) => frame_check(message_frame(item@, None)) is Ok && exists|key: Seq<u8>|
                    key.len() == 4 && final(dst)@ == old(dst)@ + #[trigger] sent_as(
                        message_frame(item@, None),
                        self.spec_context().spec_masks(),
                        key,
                    ),
                Err(e) => frame_check(message_frame(item@, None)) == Err::<(), ProtocolError>(e)
                    && final(dst)@ == old(dst)@,
            },
    {
        item.serialize(dst, self.context.masks())
    }
}

/// Round trip of a message: the bytes that a message is sent as, with or
/// without a mask, are read back by an idle codec as that message, and as
/// having taken exactly those bytes, whatever follows them in the stream.
pub proof fn lemma_decode_stream_encode(message: MessageView, mask: Option<Seq<u8>>, rest: Seq<u8>)
    requires
        mask matches Some(key) ==> key.len() == 4,
        frame_check(message_frame(message, mask)) is Ok,
    ensures
        decode_stream(AssemblerState::Idle, encode_spec(message_frame(message, mask)) + rest) == (
            AssemblerState::Idle,
            encode_spec(message_frame(message, mask)).len(),
            Ok::<Option<MessageView>, ProtocolError>(Some(message)),
        ),
{
    let frame = message_frame(message, mask);
    lemma_decode_encode(frame, rest);
    lemma_parse_message_payload(message);
    assert(assemble_step(AssemblerState::Idle, frame) == (
        AssemblerState::Idle,
        Ok::<Option<MessageView>, ProtocolError>(Some(message)),
    ));
}

} // verus!
