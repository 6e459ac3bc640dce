//! The message assembler: a state machine over frames that puts fragmented
//! messages together and hands control frames out as they come.

use vstd::prelude::*;
use vstd::slice::slice_to_vec;
use crate::error::ProtocolError;
use crate::frame::{append_bytes, frame_check, Frame, FrameView, Opcode};
use crate::message::{
    lemma_parse_message_payload, message_opcode, message_payload, parse_message, MessageView,
    OwnedMessage,
};

verus! {

/// The fragmentation state of a connection as a mathematical value: at most
/// one fragmented message is in progress.
#[verifier::ext_equal]
pub enum AssemblerState {
    /// No fragmented message is in progress.
    Idle,
    /// The opcode of the first fragment, and the payload so far.
    Accumulating { opcode: Opcode, buffer: Seq<u8> },
}

/// What a frame gives: nothing yet, a message, or a failure.
pub type Outcome = Result<Option<MessageView>, ProtocolError>;

/// The state after a whole payload was handed to `parse_message`, and what
/// came of it. `resume` is the state to go on with where a message came out;
/// a failure drops whatever was in progress.
pub open spec fn finish(resume: AssemblerState, opcode: Opcode, payload: Seq<u8>) -> (
    AssemblerState,
    Outcome,
) {
    match parse_message(opcode, payload) {
        Ok(message) => (resume, Ok(Some(message))),
        Err(e) => (AssemblerState::Idle, Err(e)),
    }
}

/// One step of the assembler: the state after `frame`, and what the frame
/// gives.
///
/// A frame that breaks a rule of `frame_check` fails. A control frame is a
/// message of its own and leaves the state as it is. A final data frame
/// while idle is a message; one that is not final starts a fragmented
/// message. A continuation is appended to the message in progress, and ends
/// it where it is final. A continuation while idle, and a new data frame
/// while a message is in progress, fail. After a failure the state is idle.
pub open spec fn assemble_step(state: AssemblerState, frame: FrameView) -> (
    AssemblerState,
    Outcome,
) {
    if frame_check(frame) is Err {
        (AssemblerState::Idle, Err(frame_check(frame)->Err_0))
    } else if frame.opcode.spec_is_control() {
        finish(state, frame.opcode, frame.payload)
    } else {
        match state {
            AssemblerState::Idle => if frame.opcode == Opcode::Continuation {
                (AssemblerState::Idle, Err(ProtocolError::UnexpectedContinuation))
            } else if frame.fin {
                finish(AssemblerState::Idle, frame.opcode, frame.payload)
            } else {
                (
                    AssemblerState::Accumulating { opcode: frame.opcode, buffer: frame.payload },
                    Ok(None),
                )
            },
            AssemblerState::Accumulating { opcode, buffer } => if frame.opcode
                != Opcode::Continuation {
                (AssemblerState::Idle, Err(ProtocolError::ExpectedContinuation))
            } else if frame.fin {
                finish(AssemblerState::Idle, opcode, buffer + frame.payload)
            } else {
                (AssemblerState::Accumulating { opcode, buffer: buffer + frame.payload }, Ok(None))
            },
        }
    }
}

/// Whether a result of the library is the given outcome.
pub open spec fn is_outcome(r: Result<Option<OwnedMessage>, ProtocolError>, outcome: Outcome) -> bool {
    match outcome {
        Ok(None) => r matches Ok(None),
        Ok(Some(message)) => r matches Ok(Some(got)) && got@ == message,
        Err(e) => r matches Err(got) && got == e,
    }
}

/// The assembler of one connection.
pub struct Assembler {
    active: bool,
    text: bool,
    buffer: Vec<u8>,
}

impl View for Assembler {
    type V = AssemblerState;

    closed spec fn view(&self) -> AssemblerState {
        if self.active {
            AssemblerState::Accumulating {
                opcode: if self.text { Opcode::Text } else { Opcode::Binary },
                buffer: self.buffer@,
            }
        } else {
            AssemblerState::Idle
        }
    }
}

impl Assembler {
    /// An idle assembler.
    pub fn new() -> (assembler: Assembler)
        ensures
            assembler@ == AssemblerState::Idle,
    {
        Assembler { active: false, text: false, buffer: Vec::new() }
    }

    /// Whether no fragmented message is in progress.
    pub fn is_idle(&self) -> (idle: bool)
        ensures
            idle == (self@ is Idle),
    {
        !self.active
    }

    /// The number of payload bytes of the message in progress.
    pub fn buffered(&self) -> (n: usize)
        ensures
            match self@ {
                AssemblerState::Idle => n == 0,
                AssemblerState::Accumulating { buffer, .. } => n == buffer.len(),
            },
    {
        if self.active {
            self.buffer.len()
        } else {
            0
        }
    }

    /// A message in progress is a text or a binary message.
    pub proof fn lemma_accumulates_data(&self)
        ensures
            self@ matches AssemblerState::Accumulating { opcode, .. } ==> opcode == Opcode::Text
                || opcode == Opcode::Binary,
    {
    }

    fn reset(&mut self)
        ensures
            final(self)@ == AssemblerState::Idle,
    {
        self.active = false;
        self.buffer = Vec::new();
    }

    fn complete(&mut self, opcode: Opcode, payload: Vec<u8>, resume: bool) -> (r: Result<
        Option<OwnedMessage>,
        ProtocolError,
    >)
        ensures
            final(self)@ == finish(
                if resume { old(self)@ } else { AssemblerState::Idle },
                opcode,
                payload@,
            ).0,
            is_outcome(
                r,
                finish(if resume { old(self)@ } else { AssemblerState::Idle }, opcode, payload@).1,
            ),
    {
        match OwnedMessage::from_parts(opcode, payload) {
            Ok(message) => {
                if !resume {
                    self.reset();
                }
                Ok(Some(message))
            },
            Err(e) => {
                self.reset();
                Err(e)
            },
        }
    }

    /// Takes the next frame of the connection: `Ok(None)` where the frame
    /// gives no message yet, the message where it completes one, and the
    /// failure where it breaks a rule.
    pub fn push(&mut self, frame: &Frame) -> (r: Result<Option<OwnedMessage>, ProtocolError>)
        ensures
            final(self)@ == assemble_step(old(self)@, frame@).0,
            is_outcome(r, assemble_step(old(self)@, frame@).1),
    {
        match frame.check() {
            Err(e) => {
                self.reset();
                return Err(e);
            },
            Ok(()) => {},
        }
        let continuation = match frame.opcode {
            Opcode::Continuation => true,
            _ => false,
        };
        if frame.opcode.is_control() {
            self.complete(frame.opcode, slice_to_vec(frame.payload.as_slice()), true)
        } else if !self.active {
            if continuation {
                Err(ProtocolError::UnexpectedContinuation)
            } else if frame.fin {
                self.complete(frame.opcode, slice_to_vec(frame.payload.as_slice()), false)
            } else {
                self.active = true;
                self.text = match frame.opcode {
                    Opcode::Text => true,
                    _ => false,
                };
                self.buffer = slice_to_vec(frame.payload.as_slice());
                Ok(None)
            }
        } else if !continuation {
            self.reset();
            Err(ProtocolError::ExpectedContinuation)
        } else {
            append_bytes(&mut self.buffer, frame.payload.as_slice());
            if frame.fin {
                let opcode = if self.text {
                    Opcode::Text
                } else {
                    Opcode::Binary
                };
                let mut payload: Vec<u8> = Vec::new();
                std::mem::swap(&mut payload, &mut self.buffer);
                self.complete(opcode, payload, false)
            } else {
                Ok(None)
            }
        }
    }
}

/// The views of a sequence of frames.
pub open spec fn frames_view(frames: Seq<Frame>) -> Seq<FrameView> {
    frames.map_values(|frame: Frame| frame@)
}

/// What the frames from index `at` on make, starting in `state`, where they
/// are to make exactly one message: each frame but the last gives nothing
/// yet, and the last one gives the message.
pub open spec fn run_frames(state: AssemblerState, frames: Seq<FrameView>, at: int) -> Result<
    MessageView,
    ProtocolError,
>
    decreases frames.len() - at,
{
    if at < 0 || at >= frames.len() {
        Err(ProtocolError::UnfinishedMessage)
    } else {
        let (next, outcome) = assemble_step(state, frames[at]);
        match outcome {
            Err(e) => Err(e),
            Ok(Some(message)) => if at + 1 == frames.len() {
                Ok(message)
            } else {
                Err(ProtocolError::UnfinishedMessage)
            },
            Ok(None) => run_frames(next, frames, at + 1),
        }
    }
}

/// The one message that a series of frames makes: what an idle assembler
/// gives at the last frame, having given nothing before it. No frames at all
/// are the failure `NoFrames`; frames that end before a message does, or go
/// on after one, are the failure `UnfinishedMessage`.
pub open spec fn message_of_frames(frames: Seq<FrameView>) -> Result<MessageView, ProtocolError> {
    if frames.len() == 0 {
        Err(ProtocolError::NoFrames)
    } else {
        run_frames(AssemblerState::Idle, frames, 0)
    }
}

/// The one message that `frames` make.
pub fn assemble(frames: &Vec<Frame>) -> (r: Result<OwnedMessage, ProtocolError>)
    ensures
        match message_of_frames(frames_view(frames@)) {
            Ok(message) => r matches Ok(got) && got@ == message,
            Err(e) => r matches Err(got) && got == e,
        },
{
    let n: usize = frames.len();
    if n == 0 {
        return Err(ProtocolError::NoFrames);
    }
    let ghost all = frames_view(frames@);
    let mut assembler = Assembler::new();
    let mut i: usize = 0;
    while i < n
        invariant
            n == frames.len(),
            i < n,
            all == frames_view(frames@),
            message_of_frames(all) == run_frames(assembler@, all, i as int),
        decreases n - i,
    {
        assert(all[i as int] == frames@[i as int]@);
        match assembler.push(&frames[i]) {
            Err(e) => {
                return Err(e);
            },
            Ok(Some(message)) => {
                if i + 1 == n {
                    return Ok(message);
                } else {
                    return Err(ProtocolError::UnfinishedMessage);
                }
            },
            Ok(None) => {
                if i + 1 == n {
                    assert(run_frames(assembler@, all, i + 1) == Err::<MessageView, ProtocolError>(
                        ProtocolError::UnfinishedMessage,
                    ));
                    return Err(ProtocolError::UnfinishedMessage);
                }
            },
        }
        i = i + 1;
    }
    Err(ProtocolError::UnfinishedMessage)
}

/// Whether `frames` are the fragments of one data message under `opcode`:
/// the first frame has the opcode and the others are continuations, only
/// the last frame is final, and no payload is too long for a frame.
pub open spec fn is_fragmented(frames: Seq<FrameView>, opcode: Opcode) -> bool {
    &&& frames.len() >= 1
    &&& (opcode == Opcode::Text || opcode == Opcode::Binary)
    &&& forall|i: int|
        0 <= i < frames.len() ==> {
            &&& (#[trigger] frames[i]).opcode == (if i == 0 {
                opcode
            } else {
                Opcode::Continuation
            })
            &&& frames[i].fin == (i == frames.len() - 1)
            &&& frames[i].payload.len() < 0x8000_0000_0000_0000
        }
}

/// The payloads of the first `upto` frames, one after the other.
pub open spec fn joined_payload(frames: Seq<FrameView>, upto: int) -> Seq<u8>
    decreases upto,
{
    if upto <= 0 {
        Seq::<u8>::empty()
    } else {
        joined_payload(frames, upto - 1) + frames[upto - 1].payload
    }
}

proof fn lemma_fragments_from(frames: Seq<FrameView>, opcode: Opcode, at: int)
    requires
        is_fragmented(frames, opcode),
        1 <= at < frames.len(),
    ensures
        run_frames(
            AssemblerState::Accumulating { opcode, buffer: joined_payload(frames, at) },
            frames,
            at,
        ) == parse_message(opcode, joined_payload(frames, frames.len() as int)),
    decreases frames.len() - at,
{
    let state = AssemblerState::Accumulating { opcode, buffer: joined_payload(frames, at) };
    let frame = frames[at];
    assert(frame_check(frame) is Ok);
    assert(joined_payload(frames, at + 1) == joined_payload(frames, at) + frame.payload);
    if at + 1 < frames.len() {
        lemma_fragments_from(frames, opcode, at + 1);
    }
}

/// Fragmentation is undone: the fragments of a data message, wherever its
/// payload was cut and whatever masks the frames were sent with, make what
/// the whole payload makes under the opcode of the first fragment.
pub proof fn lemma_fragments(frames: Seq<FrameView>, opcode: Opcode)
    requires
        is_fragmented(frames, opcode),
    ensures
        message_of_frames(frames) == parse_message(opcode, joined_payload(frames, frames.len() as int)),
{
    let first = frames[0];
    assert(frame_check(first) is Ok);
    assert(joined_payload(frames, 1) =~= first.payload) by {
        reveal_with_fuel(joined_payload, 2);
    }
    if frames.len() > 1 {
        lemma_fragments_from(frames, opcode, 1);
    }
}

/// A data message that is sent in fragments is put together again: where
/// the payloads of the fragments, one after the other, are the payload of
/// the message, the fragments make the message.
pub proof fn lemma_fragments_of_message(frames: Seq<FrameView>, message: MessageView)
    requires
        is_fragmented(frames, message_opcode(message)),
        joined_payload(frames, frames.len() as int) == message_payload(message),
    ensures
        message_of_frames(frames) == Ok::<MessageView, ProtocolError>(message),
{
    lemma_fragments(frames, message_opcode(message));
    lemma_parse_message_payload(message);
}

} // verus!
