//! What it takes to be a message: to be written as frames, and to be made of
//! frames.

use vstd::prelude::*;
use vstd::utf8::encode_utf8;
use crate::assembler::{assemble, frames_view, message_of_frames};
use crate::endian::{be_bytes, lemma_be_bytes_len};
use crate::error::ProtocolError;
use crate::frame::{encode_spec, frame_check, wire_len, Frame, FrameView};
use crate::mask::gen_mask;
use crate::message::{message_frame, message_payload, OwnedMessage};

verus! {

/// The bytes that `frame` is sent as: with the mask key `key` where it is
/// sent masked, without a key where it is not.
pub open spec fn sent_as(frame: FrameView, masked: bool, key: Seq<u8>) -> Seq<u8> {
    encode_spec(FrameView { mask: if masked { Some(key) } else { None }, ..frame })
}

/// A message of the protocol.
pub trait Message: Sized {
    /// The frame that carries the message when it is sent in one piece.
    spec fn frame(&self) -> FrameView;

    /// Whether `r` is what a series of frames makes.
    spec fn made_of(frames: Seq<FrameView>, r: Result<Self, ProtocolError>) -> bool;

    /// Writes the message to `w` as one frame, masked with a fresh random
    /// key where `masked` is set. A message whose frame breaks a rule of
    /// `frame_check` is refused, and `w` is left as it was.
    fn serialize(&self, w: &mut Vec<u8>, masked: bool) -> (r: Result<(), ProtocolError>)
        ensures
            match r {
                Ok(()) => frame_check(self.frame()) is Ok && exists|key: Seq<u8>|
                    key.len() == 4 && final(w)@ == old(w)@ + #[trigger] sent_as(
                        self.frame(),
                        masked,
                        key,
                    ),
                Err(e) => frame_check(self.frame()) == Err::<(), ProtocolError>(e) && final(w)@
                    == old(w)@,
            },
    ;

    /// The number of bytes that `serialize` writes.
    fn message_size(&self, masked: bool) -> (size: usize)
        requires
            wire_len(self.frame().payload.len(), masked) <= usize::MAX,
        ensures
            size == wire_len(self.frame().payload.len(), masked),
    ;

    /// The message that a series of frames makes.
    fn from_dataframes(frames: Vec<Frame>) -> (r: Result<Self, ProtocolError>)
        ensures
            Self::made_of(frames_view(frames@), r),
    ;
}

impl OwnedMessage {
    /// The length of the payload that the message is sent as.
    fn payload_len(&self) -> (len: usize)
        requires
            message_payload(self@).len() <= usize::MAX,
        ensures
            len == message_payload(self@).len(),
    {
        match self {
            OwnedMessage::Text(text) => text.as_str().len(),
            OwnedMessage::Binary(data) => data.len(),
            OwnedMessage::Close(None) => 0,
            OwnedMessage::Close(Some(close)) => {
                proof {
                    lemma_be_bytes_len(close.status_code as nat, 2);
                }
                2 + close.reason.as_str().len()
            },
            OwnedMessage::Ping(data) => data.len(),
            OwnedMessage::Pong(data) => data.len(),
        }
    }
}

impl Message for OwnedMessage {
    open spec fn frame(&self) -> FrameView {
        message_frame(self@, None)
    }

    open spec fn made_of(frames: Seq<FrameView>, r: Result<Self, ProtocolError>) -> bool {
        match message_of_frames(frames) {
            Ok(message) => r matches Ok(got) && got@ == message,
            Err(e) => r matches Err(got) && got == e,
        }
    }

    fn serialize(&self, w: &mut Vec<u8>, masked: bool) -> (r: Result<(), ProtocolError>) {
        let mask: Option<[u8; 4]> = if masked {
            Some(gen_mask())
        } else {
            None
        };
        let frame = self.to_frame(mask);
        let r = frame.write_to(w);
        proof {
            let key = match mask {
                Some(key) => key@,
                None => seq![0u8, 0u8, 0u8, 0u8],
            };
            assert(frame@ =~= (FrameView {
                mask: if masked { Some(key) } else { None },
                ..self.frame()
            }));
            if r is Ok {
                assert(w@ == old(w)@ + sent_as(self.frame(), masked, key));
            }
        }
        r
    }

    fn message_size(&self, masked: bool) -> (size: usize) {
        let len: usize = self.payload_len();
        let ext: usize = if len <= 125 {
            0
        } else if len <= 0xffff {
            2
        } else {
            8
        };
        let key: usize = if masked {
            4
        } else {
            0
        };
        2 + ext + key + len
    }

    fn from_dataframes(frames: Vec<Frame>) -> (r: Result<Self, ProtocolError>) {
        assemble(&frames)
    }
}

} // verus!
