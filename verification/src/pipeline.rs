//! The per-file state machine.
//!
//! The machine decides; its caller does the reading and writing. The caller
//! starts with [`start`], performs the [`Action`] it is handed, reports what
//! happened as an [`Event`] to [`step`], and goes on until the action is
//! [`Action::Stop`]. Nothing is carried from one file to the next.

use vstd::prelude::*;
use crate::decode::{decode, decode_outcome, decoded, DecodeError};
use crate::header::{holds_header, parse_tex, Header, TEXTURE_SIZE};
use crate::pixel::pixels;
use crate::wire::{read_u32, u32_le};

verus! {

/// Why a file was given up.
#[derive(Clone, Copy, Debug, PartialEq, Eq, Structural)]
pub enum SkipReason {
    /// A read came back short or failed, the image could not be written, or
    /// an event arrived that the state was not waiting for.
    Io,
    /// The length in front of the payload is not the one the header declares.
    LengthMismatch,
    /// No decoder exists for the declared format.
    UnsupportedFormat,
    /// The payload is shorter than an image of the declared size takes.
    MalformedPayload,
    /// An image of the declared size cannot be addressed on this machine.
    TooLarge,
    /// The header declares an image without pixels.
    EmptyImage,
}

/// Where the processing of one file stands.
#[derive(Clone, Copy, Debug)]
pub enum State {
    /// Nothing read yet; the header block is awaited.
    Idle,
    /// The header is parsed; the payload's length field is awaited.
    HeaderRead(Header),
    /// The length field agrees with the header; the payload is awaited.
    PayloadLengthVerified(Header),
    /// The payload is decoded; the image is being written.
    Decoded,
    /// The image is written. Terminal.
    Emitted,
    /// The file was given up. Terminal.
    Skipped(SkipReason),
}

/// What the caller reports back.
#[derive(Debug)]
pub enum Event {
    /// The bytes that a read returned, all that were asked for.
    Bytes(Vec<u8>),
    /// The image was written.
    Written,
    /// The read or the write failed.
    Failed,
}

/// A decoded image, row-major.
#[derive(Debug)]
pub struct DecodedImage {
    /// Width in pixels.
    pub width: u32,
    /// Height in pixels.
    pub height: u32,
    /// `width * height` RGBA quadruplets.
    pub colors: Vec<[u8; 4]>,
}

/// What the caller has to do next.
#[derive(Debug)]
pub enum Action {
    /// Read exactly this many bytes from the file and report them.
    Read(usize),
    /// Write this image and report whether that worked.
    Emit(DecodedImage),
    /// Nothing more to do for this file.
    Stop,
}

impl DecodedImage {
    /// An image holds one quadruplet for each of its pixels.
    pub open spec fn wf(&self) -> bool {
        self.colors@.len() == self.width * self.height
    }
}

impl State {
    /// Whether the state is one that no event leads out of.
    pub open spec fn spec_is_terminal(&self) -> bool {
        self is Emitted || self is Skipped
    }

    /// Whether the state is one that no event leads out of.
    #[verifier::when_used_as_spec(spec_is_terminal)]
    pub fn is_terminal(&self) -> (terminal: bool)
        ensures
            terminal == self.spec_is_terminal(),
    {
        match self {
            State::Emitted => true,
            State::Skipped(_) => true,
            _ => false,
        }
    }
}

/// The reason under which a decoding error gives a file up.
pub open spec fn skip_reason(e: DecodeError) -> SkipReason {
    match e {
        DecodeError::UnsupportedFormat => SkipReason::UnsupportedFormat,
        DecodeError::MalformedPayload => SkipReason::MalformedPayload,
        DecodeError::TooLarge => SkipReason::TooLarge,
    }
}

/// The step from `Idle`: a block of the header's size is parsed, and the
/// four-byte length field is asked for.
pub open spec fn header_step(event: Event, next: State, action: Action) -> bool {
    match event {
        Event::Bytes(block) if block@.len() == TEXTURE_SIZE => {
            &&& next matches State::HeaderRead(head)
            &&& holds_header(block@, head)
            &&& action == Action::Read(4)
        },
        _ => next == State::Skipped(SkipReason::Io) && action == Action::Stop,
    }
}

/// The step from `HeaderRead`: the length field is held against the header,
/// and the payload is asked for if they agree.
pub open spec fn length_step(head: Header, event: Event, next: State, action: Action) -> bool {
    match event {
        Event::Bytes(field) if field@.len() == 4 => {
            if u32_le(field@, 0) == head.data_size {
                next == State::PayloadLengthVerified(head) && action == Action::Read(
                    head.data_size as usize,
                )
            } else {
                next == State::Skipped(SkipReason::LengthMismatch) && action == Action::Stop
            }
        },
        _ => next == State::Skipped(SkipReason::Io) && action == Action::Stop,
    }
}

/// The step from `PayloadLengthVerified`: a payload of the declared length is
/// decoded, and an image that has pixels is handed out to be written.
pub open spec fn payload_step(head: Header, event: Event, next: State, action: Action) -> bool {
    match event {
        Event::Bytes(payload) if payload@.len() == head.data_size => {
            match decode_outcome(
                head.format,
                payload@.len(),
                head.width as nat,
                head.height as nat,
            ) {
                Err(e) => next == State::Skipped(skip_reason(e)) && action == Action::Stop,
                Ok(_) => {
                    if head.width * head.height == 0 {
                        next == State::Skipped(SkipReason::EmptyImage) && action == Action::Stop
                    } else {
                        &&& next == State::Decoded
                        &&& action matches Action::Emit(image)
                        &&& image.wf()
                        &&& image.width == head.width
                        &&& image.height == head.height
                        &&& pixels(image.colors@) == decoded(
                            head.format,
                            payload@,
                            head.width as nat,
                            head.height as nat,
                        )
                    }
                },
            }
        },
        _ => next == State::Skipped(SkipReason::Io) && action == Action::Stop,
    }
}

/// The step from `Decoded`: the file is done once its image is written.
pub open spec fn emit_step(event: Event, next: State, action: Action) -> bool {
    &&& action == Action::Stop
    &&& next == if event is Written {
        State::Emitted
    } else {
        State::Skipped(SkipReason::Io)
    }
}

/// Whether `event` takes the machine from `state` to `next` with `action`.
/// Terminal states stay as they are.
pub open spec fn steps_to(state: State, event: Event, next: State, action: Action) -> bool {
    match state {
        State::Idle => header_step(event, next, action),
        State::HeaderRead(head) => length_step(head, event, next, action),
        State::PayloadLengthVerified(head) => payload_step(head, event, next, action),
        State::Decoded => emit_step(event, next, action),
        State::Emitted => next == state && action == Action::Stop,
        State::Skipped(_) => next == state && action == Action::Stop,
    }
}

/// A file whose length field disagrees with its header is given up, and
/// nothing of it is read or written after that.
pub proof fn lemma_length_mismatch_skips(head: Header, field: Vec<u8>, next: State, action: Action)
    requires
        field@.len() == 4,
        u32_le(field@, 0) != head.data_size,
        steps_to(State::HeaderRead(head), Event::Bytes(field), next, action),
    ensures
        next == State::Skipped(SkipReason::LengthMismatch),
        action == Action::Stop,
{
}

/// A file in a format without a decoder is given up, and no image is handed
/// out for it.
pub proof fn lemma_unsupported_format_skips(
    head: Header,
    payload: Vec<u8>,
    next: State,
    action: Action,
)
    requires
        !head.format.spec_is_supported(),
        payload@.len() == head.data_size,
        steps_to(State::PayloadLengthVerified(head), Event::Bytes(payload), next, action),
    ensures
        next == State::Skipped(SkipReason::UnsupportedFormat),
        action == Action::Stop,
{
}

/// An image is handed out in one step only: the one that takes a verified
/// payload to `Decoded`. The image then has one quadruplet for each pixel
/// that the header declares, and at least one.
pub proof fn lemma_emit_only_after_decoding(state: State, event: Event, next: State, action: Action)
    requires
        steps_to(state, event, next, action),
        action is Emit,
    ensures
        state is PayloadLengthVerified,
        event is Bytes,
        next == State::Decoded,
        action->Emit_0.wf(),
        action->Emit_0.colors@.len() > 0,
        decode_outcome(
            state->PayloadLengthVerified_0.format,
            event->Bytes_0@.len(),
            state->PayloadLengthVerified_0.width as nat,
            state->PayloadLengthVerified_0.height as nat,
        ) is Ok,
{
}

/// No event leads out of a terminal state, and none asks for more work there.
pub proof fn lemma_terminal_states_stay(state: State, event: Event, next: State, action: Action)
    requires
        state.spec_is_terminal(),
        steps_to(state, event, next, action),
    ensures
        next == state,
        action == Action::Stop,
{
}

/// Every step that ends the work on a file ends in a terminal state, and
/// every step that does not asks for a read or a write.
pub proof fn lemma_stop_means_terminal(state: State, event: Event, next: State, action: Action)
    requires
        steps_to(state, event, next, action),
    ensures
        action == Action::Stop <==> next.spec_is_terminal(),
{
}

/// The state a file starts in, and the first read: the header block.
pub fn start() -> (begin: (State, Action))
    ensures
        begin.0 == State::Idle,
        begin.1 == Action::Read(TEXTURE_SIZE),
{
    (State::Idle, Action::Read(TEXTURE_SIZE))
}

/// Gives a file up.
fn skip(reason: SkipReason) -> (out: (State, Action))
    ensures
        out.0 == State::Skipped(reason),
        out.1 == Action::Stop,
{
    (State::Skipped(reason), Action::Stop)
}

/// Decodes the payload of a file whose length field agreed with its header.
fn on_payload(head: Header, payload: &Vec<u8>) -> (out: (State, Action))
    requires
        payload@.len() == head.data_size,
    ensures
        payload_step(head, Event::Bytes(*payload), out.0, out.1),
{
    match decode(head.format, payload.as_slice(), head.width, head.height) {
        Err(DecodeError::UnsupportedFormat) => skip(SkipReason::UnsupportedFormat),
        Err(DecodeError::MalformedPayload) => skip(SkipReason::MalformedPayload),
        Err(DecodeError::TooLarge) => skip(SkipReason::TooLarge),
        Ok(colors) => {
            if colors.len() == 0 {
                skip(SkipReason::EmptyImage)
            } else {
                let image = DecodedImage { width: head.width, height: head.height, colors };
                (State::Decoded, Action::Emit(image))
            }
        },
    }
}

/// Takes the machine one step: from `state`, on `event`, to the state and
/// the action that [`steps_to`] describes.
pub fn step(state: State, event: Event) -> (out: (State, Action))
    ensures
        steps_to(state, event, out.0, out.1),
{
    match state {
        State::Idle => match event {
            Event::Bytes(block) => {
                if block.len() == TEXTURE_SIZE {
                    let tex = parse_tex(block.as_slice());
                    (State::HeaderRead(tex.head), Action::Read(4))
                } else {
                    skip(SkipReason::Io)
                }
            },
            _ => skip(SkipReason::Io),
        },
        State::HeaderRead(head) => match event {
            Event::Bytes(field) => {
                if field.len() != 4 {
                    skip(SkipReason::Io)
                } else if read_u32(field.as_slice()) == head.data_size {
                    (State::PayloadLengthVerified(head), Action::Read(head.data_size as usize))
                } else {
                    skip(SkipReason::LengthMismatch)
                }
            },
            _ => skip(SkipReason::Io),
        },
        State::PayloadLengthVerified(head) => match event {
            Event::Bytes(payload) => {
                if payload.len() == head.data_size as usize {
                    on_payload(head, &payload)
                } else {
                    skip(SkipReason::Io)
                }
            },
            _ => skip(SkipReason::Io),
        },
        State::Decoded => match event {
            Event::Written => (State::Emitted, Action::Stop),
            _ => skip(SkipReason::Io),
        },
        State::Emitted => (State::Emitted, Action::Stop),
        State::Skipped(reason) => (State::Skipped(reason), Action::Stop),
    }
}

} // verus!
