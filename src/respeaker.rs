//! The status indicator: the modes that the listener asks for, the command
//! channel to the thread that drives the LED ring, and the control requests
//! that the ring understands.

use vstd::prelude::*;

use std::sync::mpsc::{Receiver, SyncSender};

verus! {

/// A display mode of the status indicator.
#[derive(Clone, Copy, Debug, PartialEq, Eq, Structural)]
pub enum IndicatorMode {
    Off,
    Listen,
    Think,
}

#[verifier::external_type_specification]
#[verifier::external_body]
#[verifier::reject_recursive_types(T)]
pub struct ExSyncSender<T>(SyncSender<T>);

#[verifier::external_type_specification]
#[verifier::external_body]
#[verifier::reject_recursive_types(T)]
pub struct ExReceiver<T>(Receiver<T>);

/// Relies on `SyncSender`'s `Clone`: another handle on the same channel.
pub assume_specification<T>[ <SyncSender<T> as Clone>::clone ](sender: &SyncSender<T>) -> SyncSender<T>;

/// A request to the thread that drives the LED ring.
#[derive(Debug)]
pub enum SpeakerCommand {
    Off,
    Listen,
    Think,
    /// Read the direction of arrival and answer on the given channel.
    ReadDirection(SyncSender<i32>),
}

/// Why a command did not reach the LED thread, or got no answer.
#[derive(Clone, Copy, Debug, PartialEq, Eq, Structural)]
pub enum IndicatorError {
    /// The command queue is full; the command was dropped.
    QueueFull,
    /// The LED thread is gone.
    Disconnected,
    /// The LED thread dropped the request without answering.
    NoAnswer,
}

/// Relies on `std::sync::mpsc::sync_channel`: a channel whose queue holds at
/// most `bound` messages.
#[verifier::external_body]
fn bounded_channel<T>(bound: usize) -> (r: (SyncSender<T>, Receiver<T>)) {
    std::sync::mpsc::sync_channel(bound)
}

/// Relies on `SyncSender::try_send`, which never blocks: it fails when the
/// queue is full or the receiver is gone.
#[verifier::external_body]
fn try_send<T>(sender: &SyncSender<T>, message: T) -> (r: Result<(), IndicatorError>) {
    match sender.try_send(message) {
        Ok(()) => Ok(()),
        Err(std::sync::mpsc::TrySendError::Full(_)) => Err(IndicatorError::QueueFull),
        Err(std::sync::mpsc::TrySendError::Disconnected(_)) => Err(IndicatorError::Disconnected),
    }
}

/// Relies on `Receiver::recv`: blocks until a message arrives, and fails
/// once every sender is gone.
#[verifier::external_body]
fn receive<T>(receiver: &Receiver<T>) -> (r: Option<T>) {
    receiver.recv().ok()
}

/// Capacity of the indicator command queue.
pub const COMMAND_QUEUE_BOUND: usize = 10;

/// Sends commands to the LED thread without ever blocking the caller;
/// a command that finds the queue full is dropped. A dummy commander has
/// no LED thread: it drops every command.
#[derive(Debug, Clone)]
pub struct ReSpeakerCommander {
    sender: Option<SyncSender<SpeakerCommand>>,
}

impl ReSpeakerCommander {
    /// Whether an LED thread may be listening.
    pub closed spec fn is_connected(&self) -> bool {
        self.sender is Some
    }

    /// A commander connected to `sender`.
    pub fn new(sender: SyncSender<SpeakerCommand>) -> (r: ReSpeakerCommander)
        ensures
            r.is_connected(),
    {
        ReSpeakerCommander { sender: Some(sender) }
    }

    /// Create dummy instance: nobody receives its commands.
    pub fn dummy() -> (r: ReSpeakerCommander)
        ensures
            !r.is_connected(),
    {
        ReSpeakerCommander { sender: None }
    }

    fn send(&self, command: SpeakerCommand) -> (r: Result<(), IndicatorError>)
        ensures
            !self.is_connected() ==> r == Err::<(), IndicatorError>(IndicatorError::Disconnected),
    {
        match &self.sender {
            Some(sender) => try_send(sender, command),
            None => Err(IndicatorError::Disconnected),
        }
    }

    pub fn off(&self) {
        let _ = self.send(SpeakerCommand::Off);
    }

    pub fn listen(&self) {
        let _ = self.send(SpeakerCommand::Listen);
    }

    pub fn think(&self) {
        let _ = self.send(SpeakerCommand::Think);
    }

    /// Asks for the indicator mode `mode`.
    pub fn show(&self, mode: IndicatorMode) {
        match mode {
            IndicatorMode::Off => self.off(),
            IndicatorMode::Listen => self.listen(),
            IndicatorMode::Think => self.think(),
        }
    }

    /// Asks the LED thread for the direction of arrival and waits for the
    /// answer. Fails if the request cannot be queued (always, for a dummy)
    /// or if the LED thread drops it unanswered.
    pub fn read_direction(&self) -> (r: Result<i32, IndicatorError>)
        ensures
            !self.is_connected() ==> r == Err::<i32, IndicatorError>(IndicatorError::Disconnected),
    {
        if self.sender.is_none() {
            return Err(IndicatorError::Disconnected);
        }
        let (sender, receiver) = bounded_channel(1);
        match self.send(SpeakerCommand::ReadDirection(sender)) {
            Ok(()) => {},
            Err(e) => {
                return Err(e);
            },
        }
        match receive(&receiver) {
            Some(direction) => Ok(direction),
            None => Err(IndicatorError::NoAnswer),
        }
    }
}

/// A vendor control write to the LED ring: the command number goes in the
/// request's value field, the payload in its data stage.
#[derive(Clone, Debug)]
pub struct PixelRingWrite {
    pub command: u8,
    pub data: Vec<u8>,
}

/// Something the LED ring can be told to do.
#[derive(Clone, Debug)]
pub enum PixelRingCommand {
    /// LEDs follow voice activity and direction.
    Trace,
    /// All LEDs in one `0xRRGGBB` colour.
    Mono(u32),
    /// All LEDs in one colour.
    SetColor(u8, u8, u8),
    /// Like trace, without turning the LEDs off.
    Listen,
    Speak,
    /// Wait mode.
    Think,
    Spin,
    /// Each LED in its own colour.
    Show(Vec<u8>),
    /// Brightness, `0x00` to `0x1F`.
    SetBrightness(u8),
    /// Two `0xRRGGBB` colours for the animated modes.
    SetColorPalette(u32, u32),
    /// Centre LED: 0 off, 1 on, anything else follows voice activity.
    SetVadLed(u8),
    /// Volume bar, 0 to 12.
    SetVolume(u8),
}

/// The red, green and blue bytes of `0xRRGGBB`, then a zero.
pub open spec fn color_bytes(color: u32) -> Seq<u8> {
    seq![((color >> 16u32) & 0xffu32) as u8, ((color >> 8u32) & 0xffu32) as u8, (color & 0xffu32) as u8, 0u8]
}

/// The control write for `c`, as (command number, payload).
pub open spec fn pixel_ring_request(c: PixelRingCommand) -> (u8, Seq<u8>) {
    match c {
        PixelRingCommand::Trace => (0, seq![0u8]),
        PixelRingCommand::Mono(color) => (1, color_bytes(color)),
        PixelRingCommand::SetColor(r, g, b) => (1, seq![r, g, b, 0u8]),
        PixelRingCommand::Listen => (2, seq![0u8]),
        PixelRingCommand::Speak => (3, seq![0u8]),
        PixelRingCommand::Think => (4, seq![0u8]),
        PixelRingCommand::Spin => (5, seq![0u8]),
        PixelRingCommand::Show(data) => (6, data@),
        PixelRingCommand::SetBrightness(b) => (0x20, seq![b]),
        PixelRingCommand::SetColorPalette(a, b) => (0x21, color_bytes(a) + color_bytes(b)),
        PixelRingCommand::SetVadLed(state) => (0x22, seq![state]),
        PixelRingCommand::SetVolume(volume) => (0x23, seq![volume]),
    }
}

fn push_color(data: &mut Vec<u8>, color: u32)
    ensures
        final(data)@ == old(data)@ + color_bytes(color),
{
    data.push(((color >> 16u32) & 0xffu32) as u8);
    data.push(((color >> 8u32) & 0xffu32) as u8);
    data.push((color & 0xffu32) as u8);
    data.push(0u8);
    assert(final(data)@ =~= old(data)@ + color_bytes(color));
}

fn single_byte(b: u8) -> (r: Vec<u8>)
    ensures
        r@ == seq![b],
{
    let mut r: Vec<u8> = Vec::new();
    r.push(b);
    assert(r@ =~= seq![b]);
    r
}

impl PixelRingCommand {
    /// The control write that carries this command.
    pub fn request(&self) -> (r: PixelRingWrite)
        ensures
            (r.command, r.data@) == pixel_ring_request(*self),
    {
        match self {
            PixelRingCommand::Trace => PixelRingWrite { command: 0, data: single_byte(0) },
            PixelRingCommand::Mono(color) => {
                let mut data: Vec<u8> = Vec::new();
                push_color(&mut data, *color);
                assert(data@ =~= color_bytes(*color));
                PixelRingWrite { command: 1, data }
            },
            PixelRingCommand::SetColor(r, g, b) => {
                let mut data: Vec<u8> = Vec::new();
                data.push(*r);
                data.push(*g);
                data.push(*b);
                data.push(0u8);
                assert(data@ =~= seq![*r, *g, *b, 0u8]);
                PixelRingWrite { command: 1, data }
            },
            PixelRingCommand::Listen => PixelRingWrite { command: 2, data: single_byte(0) },
            PixelRingCommand::Speak => PixelRingWrite { command: 3, data: single_byte(0) },
            PixelRingCommand::Think => PixelRingWrite { command: 4, data: single_byte(0) },
            PixelRingCommand::Spin => PixelRingWrite { command: 5, data: single_byte(0) },
            PixelRingCommand::Show(data) => PixelRingWrite { command: 6, data: data.clone() },
            PixelRingCommand::SetBrightness(b) => PixelRingWrite {
                command: 0x20,
                data: single_byte(*b),
            },
            PixelRingCommand::SetColorPalette(a, b) => {
                let mut data: Vec<u8> = Vec::new();
                push_color(&mut data, *a);
                push_color(&mut data, *b);
                assert(data@ =~= color_bytes(*a) + color_bytes(*b));
                PixelRingWrite { command: 0x21, data }
            },
            PixelRingCommand::SetVadLed(state) => PixelRingWrite {
                command: 0x22,
                data: single_byte(*state),
            },
            PixelRingCommand::SetVolume(volume) => PixelRingWrite {
                command: 0x23,
                data: single_byte(*volume),
            },
        }
    }

    /// The ring command that shows indicator mode `mode`: off is every LED
    /// black.
    pub fn for_mode(mode: IndicatorMode) -> (r: PixelRingCommand)
        ensures
            pixel_ring_request(r) == match mode {
                IndicatorMode::Off => pixel_ring_request(PixelRingCommand::Mono(0)),
                IndicatorMode::Listen => pixel_ring_request(PixelRingCommand::Listen),
                IndicatorMode::Think => pixel_ring_request(PixelRingCommand::Think),
            },
    {
        match mode {
            IndicatorMode::Off => PixelRingCommand::Mono(0),
            IndicatorMode::Listen => PixelRingCommand::Listen,
            IndicatorMode::Think => PixelRingCommand::Think,
        }
    }
}

/// Parameter id of the direction-of-arrival angle.
pub const DOA_ANGLE_PARAMETER: u16 = 21;

/// Control value that reads an integer parameter.
pub const READ_INT_PARAMETER: u16 = 0x80 | 0x40;

/// Bytes of the answer to a parameter read.
pub const PARAMETER_RESPONSE_LEN: usize = 8;

/// The `i32` whose little-endian bytes are `b[0..4]`.
pub open spec fn le_i32(b: Seq<u8>) -> i32 {
    (b[0] as int + 256 * b[1] as int + 65536 * b[2] as int + 16777216 * b[3] as int) as u32 as i32
}

/// Relies on bincode 1.3's `deserialize` with its default options for the
/// free functions (little-endian, fixed-width integers, trailing bytes
/// allowed): a pair of `i32` is read from the first eight bytes, and fewer
/// than eight bytes is an end-of-input error.
#[verifier::external_body]
fn decode_i32_pair(bytes: &[u8]) -> (r: Option<(i32, i32)>)
    ensures
        bytes@.len() >= 8 ==> r == Some(
            (le_i32(bytes@.subrange(0, 4)), le_i32(bytes@.subrange(4, 8))),
        ),
        bytes@.len() < 8 ==> r is None,
{
    bincode::deserialize::<(i32, i32)>(bytes).ok()
}

/// The direction of arrival in the answer to a parameter read: the first
/// of its two integers.
pub fn direction_from_response(response: &[u8]) -> (r: Option<i32>)
    ensures
        response@.len() >= 8 ==> r == Some(le_i32(response@.subrange(0, 4))),
        response@.len() < 8 ==> r is None,
{
    match decode_i32_pair(response) {
        Some(pair) => Some(pair.0),
        None => None,
    }
}

} // verus!
