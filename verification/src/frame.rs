//! The wire frame: a two-byte base header, an extended length of zero, two or
//! eight bytes, a mask key of zero or four bytes, and the payload.

use vstd::prelude::*;
use vstd::slice::{slice_subrange, slice_to_vec};
use crate::endian::{
    be_bytes, be_value, byte_range, lemma_be_bytes_len, lemma_be_value_of_bytes,
    lemma_byte_range_2, lemma_byte_range_8, read_u16_be, read_u64_be, write_u16_be, write_u64_be,
};
use crate::error::ProtocolError;
use crate::mask::{lemma_mask_involution, mask_bytes, mask_data};

verus! {

/// What a frame carries.
#[derive(Clone, Copy, Debug, PartialEq, Eq, Structural)]
pub enum Opcode {
    Continuation,
    Text,
    Binary,
    Close,
    Ping,
    Pong,
}

impl Opcode {
    /// The four-bit number of the opcode on the wire.
    pub open spec fn code(self) -> u8 {
        match self {
            Opcode::Continuation => 0,
            Opcode::Text => 1,
            Opcode::Binary => 2,
            Opcode::Close => 8,
            Opcode::Ping => 9,
            Opcode::Pong => 10,
        }
    }

    /// The opcode with the given number; the other numbers are reserved.
    pub open spec fn from_code(code: u8) -> Option<Opcode> {
        if code == 0 {
            Some(Opcode::Continuation)
        } else if code == 1 {
            Some(Opcode::Text)
        } else if code == 2 {
            Some(Opcode::Binary)
        } else if code == 8 {
            Some(Opcode::Close)
        } else if code == 9 {
            Some(Opcode::Ping)
        } else if code == 10 {
            Some(Opcode::Pong)
        } else {
            None
        }
    }

    /// Close, ping and pong are the control opcodes.
    pub open spec fn spec_is_control(self) -> bool {
        self == Opcode::Close || self == Opcode::Ping || self == Opcode::Pong
    }

    /// The four-bit number of the opcode on the wire.
    pub fn to_u8(self) -> (code: u8)
        ensures
            code == self.code(),
            code < 16,
    {
        match self {
            Opcode::Continuation => 0,
            Opcode::Text => 1,
            Opcode::Binary => 2,
            Opcode::Close => 8,
            Opcode::Ping => 9,
            Opcode::Pong => 10,
        }
    }

    /// The opcode with the given number, `None` for a reserved one.
    pub fn from_u8(code: u8) -> (opcode: Option<Opcode>)
        ensures
            opcode == Opcode::from_code(code),
    {
        match code {
            0 => Some(Opcode::Continuation),
            1 => Some(Opcode::Text),
            2 => Some(Opcode::Binary),
            8 => Some(Opcode::Close),
            9 => Some(Opcode::Ping),
            10 => Some(Opcode::Pong),
            _ => None,
        }
    }

    /// Whether this is a control opcode.
    #[verifier::when_used_as_spec(spec_is_control)]
    pub fn is_control(self) -> (control: bool)
        ensures
            control == self.spec_is_control(),
    {
        match self {
            Opcode::Close | Opcode::Ping | Opcode::Pong => true,
            _ => false,
        }
    }
}

/// The number and the opcode determine each other, and the number fits
/// the four bits of the header.
pub proof fn lemma_opcode_code(opcode: Opcode, code: u8)
    ensures
        Opcode::from_code(opcode.code()) == Some(opcode),
        Opcode::from_code(code) == Some(opcode) ==> opcode.code() == code,
        opcode.code() < 16,
{
}

/// The largest payload of a control frame.
pub const MAX_CONTROL_PAYLOAD: usize = 125;

/// One frame. `payload` is the logical payload, without the mask; `mask` is
/// the key that the frame is sent with, where it is masked.
#[derive(Clone, Debug, PartialEq, Eq)]
pub struct Frame {
    pub fin: bool,
    pub opcode: Opcode,
    pub mask: Option<[u8; 4]>,
    pub payload: Vec<u8>,
}

/// A frame as a mathematical value.
#[verifier::ext_equal]
pub struct FrameView {
    pub fin: bool,
    pub opcode: Opcode,
    pub mask: Option<Seq<u8>>,
    pub payload: Seq<u8>,
}

impl View for Frame {
    type V = FrameView;

    open spec fn view(&self) -> FrameView {
        FrameView {
            fin: self.fin,
            opcode: self.opcode,
            mask: match self.mask {
                Some(key) => Some(key@),
                None => None,
            },
            payload: self.payload@,
        }
    }
}

impl FrameView {
    /// A mask key has four bytes.
    pub open spec fn wf(self) -> bool {
        self.mask matches Some(key) ==> key.len() == 4
    }

    /// Whether the frame is masked.
    pub open spec fn masked(self) -> bool {
        self.mask is Some
    }
}

/// The rule that a frame breaks, if any: a control frame is final and
/// carries at most 125 bytes, and no length needs all 64 bits.
pub open spec fn frame_check(frame: FrameView) -> Result<(), ProtocolError> {
    if frame.opcode.spec_is_control() && !frame.fin {
        Err(ProtocolError::FragmentedControl)
    } else if frame.opcode.spec_is_control() && frame.payload.len() > 125 {
        Err(ProtocolError::ControlTooLarge)
    } else if frame.payload.len() >= 0x8000_0000_0000_0000 {
        Err(ProtocolError::LengthOverflow)
    } else {
        Ok(())
    }
}

/// The seven-bit length field for a payload of `len` bytes: the length
/// itself up to 125, 126 where two more bytes carry it, 127 where eight do.
pub open spec fn length_code(len: nat) -> u8 {
    if len <= 125 {
        len as u8
    } else if len <= 0xffff {
        126
    } else {
        127
    }
}

/// The width in bytes of the extended length that follows a length field.
pub open spec fn extended_width(code: u8) -> nat {
    if code == 126 {
        2
    } else if code == 127 {
        8
    } else {
        0
    }
}

/// The extended length for a payload of `len` bytes: the smallest encoding
/// that fits.
pub open spec fn extended_length(len: nat) -> Seq<u8> {
    be_bytes(len, extended_width(length_code(len)))
}

/// The first header byte: the final-fragment bit, three reserved bits that
/// are zero, and the opcode.
pub open spec fn first_byte(fin: bool, opcode: Opcode) -> u8 {
    ((if fin { 128int } else { 0int }) + opcode.code()) as u8
}

/// The second header byte: the mask bit and the length field.
pub open spec fn second_byte(masked: bool, len: nat) -> u8 {
    ((if masked { 128int } else { 0int }) + length_code(len)) as u8
}

/// The header of a frame: both header bytes, the extended length and the
/// mask key.
pub open spec fn encode_header(frame: FrameView) -> Seq<u8> {
    seq![first_byte(frame.fin, frame.opcode), second_byte(frame.masked(), frame.payload.len())]
        + extended_length(frame.payload.len()) + (match frame.mask {
        Some(key) => key,
        None => Seq::<u8>::empty(),
    })
}

/// The payload as it goes on the wire: masked where the frame has a key.
pub open spec fn encode_payload(frame: FrameView) -> Seq<u8> {
    match frame.mask {
        Some(key) => mask_bytes(frame.payload, key),
        None => frame.payload,
    }
}

/// The bytes of a frame on the wire.
pub open spec fn encode_spec(frame: FrameView) -> Seq<u8> {
    encode_header(frame) + encode_payload(frame)
}

/// The number of bytes that a frame with a payload of `len` bytes takes.
pub open spec fn wire_len(len: nat, masked: bool) -> nat {
    2 + extended_width(length_code(len)) + (if masked { 4nat } else { 0nat }) + len
}

/// Appends `src` to `dst`.
pub fn append_bytes(dst: &mut Vec<u8>, src: &[u8])
    ensures
        final(dst)@ == old(dst)@ + src@,
{
    let mut i: usize = 0;
    while i < src.len()
        invariant
            i <= src.len(),
            dst@ == old(dst)@ + src@.subrange(0, i as int),
        decreases src.len() - i,
    {
        dst.push(src[i]);
        i = i + 1;
        assert(dst@ =~= old(dst)@ + src@.subrange(0, i as int));
    }
    assert(src@.subrange(0, i as int) =~= src@);
}

impl Frame {
    /// A frame of the given parts.
    pub fn new(fin: bool, opcode: Opcode, mask: Option<[u8; 4]>, payload: Vec<u8>) -> (frame: Frame)
        ensures
            frame.fin == fin,
            frame.opcode == opcode,
            frame.mask == mask,
            frame.payload == payload,
    {
        Frame { fin, opcode, mask, payload }
    }

    /// Whether the frame is masked.
    pub fn is_masked(&self) -> (masked: bool)
        ensures
            masked == self@.masked(),
    {
        self.mask.is_some()
    }

    /// The length of the payload.
    pub fn payload_len(&self) -> (len: usize)
        ensures
            len == self@.payload.len(),
    {
        self.payload.len()
    }

    /// Holds the frame to the rules of `frame_check`.
    pub fn check(&self) -> (r: Result<(), ProtocolError>)
        ensures
            r == frame_check(self@),
    {
        let control = self.opcode.is_control();
        if control && !self.fin {
            Err(ProtocolError::FragmentedControl)
        } else if control && self.payload.len() > MAX_CONTROL_PAYLOAD {
            Err(ProtocolError::ControlTooLarge)
        } else if self.payload.len() as u64 >= 0x8000_0000_0000_0000u64 {
            Err(ProtocolError::LengthOverflow)
        } else {
            Ok(())
        }
    }

    /// The number of bytes that the frame takes on the wire, `None` where
    /// that number does not fit `usize`.
    pub fn frame_size(&self) -> (size: Option<usize>)
        ensures
            match size {
                Some(n) => n == wire_len(self@.payload.len(), self@.masked()),
                None => wire_len(self@.payload.len(), self@.masked()) > usize::MAX,
            },
    {
        let len: usize = self.payload.len();
        let ext: usize = if len <= 125 {
            0
        } else if len <= 0xffff {
            2
        } else {
            8
        };
        let key: usize = if self.mask.is_some() {
            4
        } else {
            0
        };
        len.checked_add(2 + ext + key)
    }

    /// Appends the frame's bytes to `dst`. A frame that breaks a rule is
    /// refused, and `dst` is left as it was.
    pub fn write_to(&self, dst: &mut Vec<u8>) -> (r: Result<(), ProtocolError>)
        ensures
            match r {
                Ok(()) => frame_check(self@) is Ok && final(dst)@ == old(dst)@ + encode_spec(self@),
                Err(e) => frame_check(self@) == Err::<(), ProtocolError>(e) && final(dst)@ == old(
                    dst,
                )@,
            },
    {
        match self.check() {
            Err(e) => {
                return Err(e);
            },
            Ok(()) => {},
        }
        let len: usize = self.payload.len();
        let fin_bit: u8 = if self.fin {
            128
        } else {
            0
        };
        let mask_bit: u8 = if self.mask.is_some() {
            128
        } else {
            0
        };
        dst.push(fin_bit + self.opcode.to_u8());
        if len <= 125 {
            dst.push(mask_bit + len as u8);
            assert(extended_length(len as nat) =~= Seq::<u8>::empty()) by {
                reveal_with_fuel(be_bytes, 1);
            }
        } else if len <= 0xffff {
            dst.push(mask_bit + 126);
            let ext = write_u16_be(len as u16);
            append_bytes(dst, ext.as_slice());
        } else {
            dst.push(mask_bit + 127);
            let ext = write_u64_be(len as u64);
            append_bytes(dst, ext.as_slice());
        }
        assert(dst@ =~= old(dst)@ + (seq![
            first_byte(self@.fin, self@.opcode),
            second_byte(self@.masked(), self@.payload.len()),
        ] + extended_length(self@.payload.len())));
        match self.mask {
            Some(key) => {
                append_bytes(dst, key.as_slice());
                let body = mask_data(key, self.payload.as_slice());
                append_bytes(dst, body.as_slice());
            },
            None => {
                append_bytes(dst, self.payload.as_slice());
            },
        }
        assert(dst@ =~= old(dst)@ + encode_spec(self@));
        Ok(())
    }

    /// The frame's bytes on the wire.
    pub fn to_bytes(&self) -> (r: Result<Vec<u8>, ProtocolError>)
        ensures
            match r {
                Ok(bytes) => frame_check(self@) is Ok && bytes@ == encode_spec(self@),
                Err(e) => frame_check(self@) == Err::<(), ProtocolError>(e),
            },
    {
        let mut bytes: Vec<u8> = Vec::new();
        match self.write_to(&mut bytes) {
            Ok(()) => {
                assert(bytes@ =~= encode_spec(self@));
                Ok(bytes)
            },
            Err(e) => Err(e),
        }
    }
}

/// What the front of a byte stream holds.
#[verifier::ext_equal]
pub enum Decoded {
    /// Not yet a whole frame: more bytes are needed.
    Incomplete,
    /// A malformed frame.
    Invalid(ProtocolError),
    /// A frame, and the number of bytes that it took.
    Complete { frame: FrameView, consumed: nat },
}

/// The three reserved bits of the first header byte.
pub open spec fn reserved_bits(b0: u8) -> nat {
    ((b0 as nat) / 16) % 8
}

/// What the two bytes of the base header show: the opcode, or the rule
/// that they break. The reserved bits are zero, the opcode is not a reserved
/// one, and a control frame is final and has a length field of at most 125.
pub open spec fn header_check(b0: u8, b1: u8) -> Result<Opcode, ProtocolError> {
    if reserved_bits(b0) != 0 {
        Err(ProtocolError::ReservedBitsSet)
    } else {
        match Opcode::from_code(b0 % 16) {
            None => Err(ProtocolError::InvalidOpcode(b0 % 16)),
            Some(opcode) => if opcode.spec_is_control() && b0 < 128 {
                Err(ProtocolError::FragmentedControl)
            } else if opcode.spec_is_control() && b1 % 128 > 125 {
                Err(ProtocolError::ControlTooLarge)
            } else {
                Ok(opcode)
            },
        }
    }
}

/// The payload length that a header announces: the length field itself, or
/// the big-endian extended length behind it.
pub open spec fn announced_len(bytes: Seq<u8>) -> nat
    recommends
        bytes.len() >= 2 + extended_width(bytes[1] % 128),
{
    let code = bytes[1] % 128;
    if extended_width(code) == 0 {
        code as nat
    } else {
        be_value(bytes.subrange(2, 2 + extended_width(code) as int))
    }
}

/// The frame at the front of `bytes`. The header is read first, so a
/// malformed header is reported as soon as its bytes are there; a payload
/// that is masked on the wire is handed out unmasked.
pub open spec fn decode_spec(bytes: Seq<u8>) -> Decoded {
    if bytes.len() < 2 {
        Decoded::Incomplete
    } else {
        match header_check(bytes[0], bytes[1]) {
            Err(e) => Decoded::Invalid(e),
            Ok(opcode) => {
                let key_at = 2 + extended_width(bytes[1] % 128);
                let masked = bytes[1] >= 128;
                let body_at = key_at + (if masked { 4nat } else { 0nat });
                let len = announced_len(bytes);
                if bytes.len() < key_at {
                    Decoded::Incomplete
                } else if len >= 0x8000_0000_0000_0000 {
                    Decoded::Invalid(ProtocolError::LengthOverflow)
                } else if bytes.len() < body_at + len {
                    Decoded::Incomplete
                } else {
                    let key = bytes.subrange(key_at as int, key_at + 4 as int);
                    let raw = bytes.subrange(body_at as int, (body_at + len) as int);
                    Decoded::Complete {
                        frame: FrameView {
                            fin: bytes[0] >= 128,
                            opcode,
                            mask: if masked { Some(key) } else { None },
                            payload: if masked { mask_bytes(raw, key) } else { raw },
                        },
                        consumed: body_at + len,
                    }
                }
            },
        }
    }
}

/// Reads the frame at the front of `buf`: `Ok(None)` where more bytes are
/// needed, the frame and the number of bytes it took where it is whole, and
/// the failure where it is malformed.
pub fn decode(buf: &[u8]) -> (r: Result<Option<(Frame, usize)>, ProtocolError>)
    ensures
        match decode_spec(buf@) {
            Decoded::Incomplete => r matches Ok(None),
            Decoded::Invalid(e) => r matches Err(got) && got == e,
            Decoded::Complete { frame, consumed } => r matches Ok(Some((got, n))) && got@ == frame
                && n == consumed,
        },
{
    if buf.len() < 2 {
        return Ok(None);
    }
    let b0: u8 = buf[0];
    let b1: u8 = buf[1];
    if (b0 / 16) % 8 != 0 {
        return Err(ProtocolError::ReservedBitsSet);
    }
    let opcode = match Opcode::from_u8(b0 % 16) {
        None => {
            return Err(ProtocolError::InvalidOpcode(b0 % 16));
        },
        Some(opcode) => opcode,
    };
    let fin: bool = b0 >= 128;
    let masked: bool = b1 >= 128;
    let code: u8 = b1 % 128;
    if opcode.is_control() && !fin {
        return Err(ProtocolError::FragmentedControl);
    }
    if opcode.is_control() && code > 125 {
        return Err(ProtocolError::ControlTooLarge);
    }
    let key_at: usize = if code == 126 {
        4
    } else if code == 127 {
        10
    } else {
        2
    };
    if buf.len() < key_at {
        return Ok(None);
    }
    let len: u64 = if code == 126 {
        let field = slice_subrange(buf, 2, 4);
        assert(field@.subrange(0, 2) =~= field@);
        read_u16_be(field) as u64
    } else if code == 127 {
        let field = slice_subrange(buf, 2, 10);
        assert(field@.subrange(0, 8) =~= field@);
        read_u64_be(field)
    } else {
        code as u64
    };
    assert(len == announced_len(buf@));
    if len >= 0x8000_0000_0000_0000u64 {
        return Err(ProtocolError::LengthOverflow);
    }
    let key_len: u64 = if masked {
        4
    } else {
        0
    };
    let left: usize = buf.len() - key_at;
    if (left as u64) < key_len + len {
        return Ok(None);
    }
    let n: usize = len as usize;
    if masked {
        let key: [u8; 4] = [buf[key_at], buf[key_at + 1], buf[key_at + 2], buf[key_at + 3]];
        assert(key@ =~= buf@.subrange(key_at as int, key_at + 4));
        let body_at: usize = key_at + 4;
        let raw = slice_subrange(buf, body_at, body_at + n);
        let payload = mask_data(key, raw);
        let frame = Frame { fin, opcode, mask: Some(key), payload };
        Ok(Some((frame, body_at + n)))
    } else {
        let raw = slice_subrange(buf, key_at, key_at + n);
        let payload = slice_to_vec(raw);
        let frame = Frame { fin, opcode, mask: None, payload };
        Ok(Some((frame, key_at + n)))
    }
}

/// Reads the frame at the front of `buf` when the stream has ended: no
/// bytes at all are a clean end, `Ok(None)`; a frame that is not whole is
/// the failure `IncompleteFrame`.
pub fn decode_eof(buf: &[u8]) -> (r: Result<Option<(Frame, usize)>, ProtocolError>)
    ensures
        buf@.len() == 0 ==> r matches Ok(None),
        buf@.len() > 0 ==> match decode_spec(buf@) {
            Decoded::Incomplete => r matches Err(got) && got == ProtocolError::IncompleteFrame,
            Decoded::Invalid(e) => r matches Err(got) && got == e,
            Decoded::Complete { frame, consumed } => r matches Ok(Some((got, n))) && got@ == frame
                && n == consumed,
        },
{
    if buf.len() == 0 {
        return Ok(None);
    }
    match decode(buf) {
        Ok(None) => Err(ProtocolError::IncompleteFrame),
        Ok(Some(found)) => Ok(Some(found)),
        Err(e) => Err(e),
    }
}

/// A frame's bytes are as many as `wire_len` says.
pub proof fn lemma_encode_len(frame: FrameView)
    requires
        frame.wf(),
    ensures
        encode_spec(frame).len() == wire_len(frame.payload.len(), frame.masked()),
{
    lemma_be_bytes_len(frame.payload.len(), extended_width(length_code(frame.payload.len())));
}

/// Round trip: the bytes that a frame is written as, whatever follows them
/// in the stream, are read back as that frame, equal in every field (the
/// payload without its mask, the mask key as it was sent), and as having
/// taken exactly those bytes.
pub proof fn lemma_decode_encode(frame: FrameView, rest: Seq<u8>)
    requires
        frame.wf(),
        frame_check(frame) is Ok,
    ensures
        decode_spec(encode_spec(frame) + rest) == (Decoded::Complete {
            frame,
            consumed: encode_spec(frame).len(),
        }),
{
    let len = frame.payload.len();
    let code = length_code(len);
    let ext = extended_width(code);
    let wire = encode_spec(frame);
    let bytes = wire + rest;
    let masked = frame.masked();
    let key_at = 2 + ext;
    let body_at = key_at + (if masked { 4nat } else { 0nat });
    lemma_be_bytes_len(len, ext);
    lemma_encode_len(frame);
    assert(wire.len() == body_at + len);
    assert(bytes[0] == first_byte(frame.fin, frame.opcode));
    assert(bytes[1] == second_byte(masked, len));
    assert(bytes[1] % 128 == code);
    assert((bytes[1] >= 128) == masked);
    assert(header_check(bytes[0], bytes[1]) == Ok::<Opcode, ProtocolError>(frame.opcode));
    assert(bytes.subrange(2, 2 + ext as int) =~= be_bytes(len, ext));
    assert(announced_len(bytes) == len) by {
        if ext == 2 {
            lemma_byte_range_2();
            lemma_be_value_of_bytes(len, 2);
        } else if ext == 8 {
            lemma_byte_range_8();
            lemma_be_value_of_bytes(len, 8);
        }
    }
    let raw = bytes.subrange(body_at as int, (body_at + len) as int);
    assert(raw =~= encode_payload(frame));
    match frame.mask {
        Some(key) => {
            assert(bytes.subrange(key_at as int, key_at + 4 as int) =~= key);
            lemma_mask_involution(frame.payload, key);
        },
        None => {},
    }
    assert(decode_spec(bytes) =~= (Decoded::Complete { frame, consumed: wire.len() }));
}

/// A verdict stands: once the front of a stream is a whole frame, or is
/// malformed, no bytes that arrive later change what it is read as. So a
/// stream can be read as it comes, and only `Incomplete` asks for more.
pub proof fn lemma_decode_prefix(bytes: Seq<u8>, rest: Seq<u8>)
    requires
        !(decode_spec(bytes) is Incomplete),
    ensures
        decode_spec(bytes + rest) == decode_spec(bytes),
{
    let all = bytes + rest;
    assert(all[0] == bytes[0]);
    assert(all[1] == bytes[1]);
    if header_check(bytes[0], bytes[1]) is Ok {
        let code = bytes[1] % 128;
        let key_at = 2 + extended_width(code);
        assert(bytes.len() >= key_at);
        assert(all.subrange(2, key_at as int) =~= bytes.subrange(2, key_at as int));
        let len = announced_len(bytes);
        assert(announced_len(all) == len);
        if len < 0x8000_0000_0000_0000 {
            let body_at = key_at + (if bytes[1] >= 128 { 4nat } else { 0nat });
            assert(bytes.len() >= body_at + len);
            if bytes[1] >= 128 {
                assert(all.subrange(key_at as int, key_at + 4 as int) =~= bytes.subrange(
                    key_at as int,
                    key_at + 4 as int,
                ));
            }
            assert(all.subrange(body_at as int, (body_at + len) as int) =~= bytes.subrange(
                body_at as int,
                (body_at + len) as int,
            ));
        }
    }
}

/// A whole frame takes at least its two header bytes, and no more bytes
/// than there are.
pub proof fn lemma_decode_consumes(bytes: Seq<u8>)
    ensures
        decode_spec(bytes) matches Decoded::Complete { frame, consumed } ==> 2 <= consumed
            <= bytes.len() && frame.wf() && frame_check(frame) is Ok,
{
}

} // verus!
