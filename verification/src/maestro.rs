//! The main module for the [`Maestro`] session, as well as all related
//! definitions.
//!
//! A session never touches the serial link itself. Every exchange with the
//! board runs in steps:
//!
//! 1. A command method ([`Maestro::set_target`], [`Maestro::get_position`],
//!    ...) checks the session and its arguments, encodes the command into the
//!    write buffer and returns the [`Frame`] that has to be written to the
//!    link.
//! 2. The caller writes the frame and hands the link's answer to
//!    [`Maestro::write`], which decides whether the write went through and
//!    what follows it: an [`Action`].
//! 3. For the two queries the action is a read of [`RESPONSE_SIZE`] bytes. The
//!    caller reads and hands what came to [`Maestro::read_after_writing`] or
//!    [`Maestro::errors_after_writing`], which decode the response.
//!
//! Targets are given in quarter microseconds, from [`MIN_QTR_PWM`] to
//! [`MAX_QTR_PWM`].

pub mod builder;
pub mod intrinsics;

use crate::constants::{
    BaudRates, Channels, CommandFlags, Errors, BUFFER_SIZE, DATA_BITS, DEFAULT_BLOCKING_SECS,
    DEVICE_NUMBER, MAX_QTR_PWM, MIN_QTR_PWM, MIN_WRITE_LENGTH, RESPONSE_SIZE, STOP_BITS, SYNC,
};
use crate::errors::{flatten, Error, UartError};
use crate::utils::{mask_byte, microsec_to_target, target_bytes};
use std::time::Duration;
use vstd::prelude::*;
use vstd::slice::slice_subrange;

verus! {

/// The duration that `Duration::from_secs` makes of a number of seconds.
pub uninterp spec fn duration_of_secs(secs: u64) -> Duration;

/// Calls `Duration::from_secs`, which makes a duration of a whole number of
/// seconds. The result depends on the number alone and is known here only
/// under the name `duration_of_secs`.
#[verifier::external_body]
pub(crate) fn duration_from_secs(secs: u64) -> (duration: Duration)
    ensures
        duration == duration_of_secs(secs),
{
    Duration::from_secs(secs)
}

/// The parity setting of the serial link.
#[derive(Debug, Copy, Clone, PartialEq, Eq, Structural)]
pub enum Parity {
    /// No parity bit.
    Disabled,
    /// Even parity.
    Even,
    /// Odd parity.
    Odd,
}

/// How a read on the serial link blocks: until `min_length` bytes have come
/// or, if that is 0, until `timeout` has passed.
#[derive(Debug, Copy, Clone, PartialEq, Eq)]
pub struct ReadMode {
    pub min_length: u8,
    pub timeout: Duration,
}

/// Everything that the serial link is opened and configured with.
#[derive(Debug, Copy, Clone, PartialEq, Eq)]
pub struct PortSettings {
    pub baud_rate: u32,
    pub parity: Parity,
    pub data_bits: u8,
    pub stop_bits: u8,
    pub read_mode: ReadMode,
}

/// The settings of the link for a given speed and blocking duration: 8 data
/// bits, 1 stop bit, no parity, and reads that block for `block_duration`.
pub open spec fn port_settings(baud_rate: u32, block_duration: Duration) -> PortSettings {
    PortSettings {
        baud_rate,
        parity: Parity::Disabled,
        data_bits: DATA_BITS,
        stop_bits: STOP_BITS,
        read_mode: ReadMode { min_length: 0, timeout: block_duration },
    }
}

/// A command of the Pololu protocol together with its arguments.
pub enum Command {
    SetTarget(Channels, u16),
    SetSpeed(Channels, u16),
    SetAcceleration(Channels, u8),
    GoHome,
    StopScript,
    GetPosition(Channels),
    GetErrors,
}

/// The three-byte frame of a command without arguments: the sync byte, the
/// device number, and the opcode with its top bit cleared.
pub open spec fn command_frame(command: CommandFlags) -> Seq<u8> {
    seq![SYNC, DEVICE_NUMBER, command.spec_value() & 0x7f]
}

/// The four-byte frame of a command on a channel.
pub open spec fn channel_frame(command: CommandFlags, channel: Channels) -> Seq<u8> {
    seq![SYNC, DEVICE_NUMBER, command.spec_value() & 0x7f, channel.spec_value()]
}

/// The six-byte frame of a command that carries a value to a channel.
pub open spec fn payload_frame(command: CommandFlags, channel: Channels, value: u16) -> Seq<u8> {
    seq![
        SYNC,
        DEVICE_NUMBER,
        command.spec_value() & 0x7f,
        channel.spec_value(),
        target_bytes(value).0,
        target_bytes(value).1,
    ]
}

/// Whether `target` is a pulse width, in quarter microseconds, that the
/// Maestro can be asked for.
pub open spec fn valid_target(target: u16) -> bool {
    MIN_QTR_PWM <= target <= MAX_QTR_PWM
}

/// The 16-bit value of a response whose first byte is `low` and whose second
/// byte is `high`.
pub open spec fn response_value(low: u8, high: u8) -> u16 {
    (high * 256 + low) as u16
}

impl Command {
    /// The frame that carries this command on the wire.
    pub open spec fn frame(self) -> Seq<u8> {
        match self {
            Command::SetTarget(channel, target) => payload_frame(
                CommandFlags::SET_TARGET,
                channel,
                target,
            ),
            Command::SetSpeed(channel, speed) => payload_frame(
                CommandFlags::SET_SPEED,
                channel,
                speed,
            ),
            Command::SetAcceleration(channel, acceleration) => payload_frame(
                CommandFlags::SET_ACCELERATION,
                channel,
                acceleration as u16,
            ),
            Command::GoHome => command_frame(CommandFlags::GO_HOME),
            Command::StopScript => command_frame(CommandFlags::STOP_SCRIPT),
            Command::GetPosition(channel) => channel_frame(CommandFlags::GET_POSITION, channel),
            Command::GetErrors => command_frame(CommandFlags::GET_ERRORS),
        }
    }

    /// The number of bytes with which the Maestro answers this command.
    pub open spec fn response_len(self) -> usize {
        match self {
            Command::GetPosition(_) => RESPONSE_SIZE as usize,
            Command::GetErrors => RESPONSE_SIZE as usize,
            _ => 0,
        }
    }

    /// Whether the arguments of this command are in their domain. Only the
    /// target of `SetTarget` has a domain narrower than its type.
    pub open spec fn valid(self) -> bool {
        match self {
            Command::SetTarget(_, target) => valid_target(target),
            _ => true,
        }
    }

    /// The argument that is reported when this command is not valid.
    pub open spec fn rejected_value(self) -> u16 {
        match self {
            Command::SetTarget(_, target) => target,
            _ => 0,
        }
    }
}

/// What a session is, as far as its behaviour goes: inactive, or active with
/// the contents of its two buffers.
pub enum State {
    Inactive,
    Active { read_buf: Seq<u8>, write_buf: Seq<u8> },
}

impl State {
    /// An active state has two buffers of `BUFFER_SIZE` bytes, and its write
    /// buffer begins with the sync byte and the device number.
    pub open spec fn well_formed(self) -> bool {
        match self {
            State::Inactive => true,
            State::Active { read_buf, write_buf } => {
                &&& read_buf.len() == BUFFER_SIZE
                &&& write_buf.len() == BUFFER_SIZE
                &&& write_buf[0] == SYNC
                &&& write_buf[1] == DEVICE_NUMBER
            },
        }
    }

    /// The state of a session right after it was started.
    pub open spec fn started() -> State {
        State::Active {
            read_buf: seq![0u8, 0u8, 0u8, 0u8, 0u8, 0u8],
            write_buf: seq![SYNC, DEVICE_NUMBER, 0u8, 0u8, 0u8, 0u8],
        }
    }

    /// What a command method returns in this state: `Uninitialized` when the
    /// session is inactive, `InvalidValue` for an argument outside its domain,
    /// and the frame of the command otherwise.
    pub open spec fn request(self, command: Command) -> Result<Seq<u8>, Error> {
        if self is Inactive {
            Err(Error::Uninitialized)
        } else if !command.valid() {
            Err(Error::InvalidValue(command.rejected_value()))
        } else {
            Ok(command.frame())
        }
    }

    /// The state of a session after it was closed, whatever it was before.
    pub open spec fn closed(self) -> State {
        State::Inactive
    }

    /// The state with `frame` laid over the front of the write buffer.
    pub open spec fn with_frame(self, frame: Seq<u8>) -> State {
        match self {
            State::Inactive => State::Inactive,
            State::Active { read_buf, write_buf } => State::Active {
                read_buf,
                write_buf: frame + write_buf.skip(frame.len() as int),
            },
        }
    }

    /// The state after a command method has run: with the frame of the command
    /// in the write buffer if there is one, unchanged if the command was
    /// refused.
    pub open spec fn after_request(self, command: Command) -> State {
        if self.request(command) is Ok {
            self.with_frame(command.frame())
        } else {
            self
        }
    }

    /// The state with the first `length` bytes of `received`, or all of them
    /// if there are fewer, laid over the front of the read buffer.
    pub open spec fn with_response(self, length: int, received: Seq<u8>) -> State {
        match self {
            State::Inactive => State::Inactive,
            State::Active { read_buf, write_buf } => {
                let count = if received.len() < length {
                    received.len() as int
                } else {
                    length
                };
                State::Active { read_buf: received.take(count) + read_buf.skip(count), write_buf }
            },
        }
    }
}

/// What the driver makes of the link's answer to a write of `length` bytes:
/// the link's own failure, a faulty write unless exactly `length` bytes were
/// accepted, and success otherwise.
pub open spec fn write_outcome(length: usize, written: Result<usize, UartError>) -> Result<
    (),
    Error,
> {
    match written {
        Err(uart_error) => Err(Error::Transport(flatten(uart_error))),
        Ok(count) => if count == length {
            Ok(())
        } else {
            Err(Error::FaultyWrite { actual_count: count, expected_count: length })
        },
    }
}

/// What the driver makes of the link's answer to a read of `length` bytes: the
/// link's own failure, a faulty read unless exactly `length` bytes came, and
/// success otherwise.
pub open spec fn read_outcome(length: usize, received: Result<Seq<u8>, UartError>) -> Result<
    (),
    Error,
> {
    match received {
        Err(uart_error) => Err(Error::Transport(flatten(uart_error))),
        Ok(bytes) => if bytes.len() == length {
            Ok(())
        } else {
            Err(Error::FaultyRead { actual_count: bytes.len() as usize })
        },
    }
}

/// What the driver makes of the link's answer to the read that follows a
/// query: the value of the response if exactly `RESPONSE_SIZE` bytes came.
pub open spec fn response_outcome(received: Result<Seq<u8>, UartError>) -> Result<u16, Error> {
    match read_outcome(RESPONSE_SIZE as usize, received) {
        Err(error) => Err(error),
        Ok(()) => Ok(response_value(received->Ok_0[0], received->Ok_0[1])),
    }
}

/// The view of what the link handed back from a read.
pub open spec fn received_view(received: Result<Vec<u8>, UartError>) -> Result<
    Seq<u8>,
    UartError,
> {
    match received {
        Ok(bytes) => Ok(bytes@),
        Err(uart_error) => Err(uart_error),
    }
}

/// What the caller has to do on the serial link once a frame was written.
#[derive(Debug, Copy, Clone, PartialEq, Eq, Structural)]
pub enum Action {
    /// Nothing: the exchange is complete.
    Done,
    /// Read this many bytes, and hand what came to the method that decodes
    /// the response.
    Read(usize),
}

/// One encoded command: the bytes that have to be written to the serial link,
/// and the number of bytes with which the Maestro answers them.
#[derive(Debug, Copy, Clone, PartialEq, Eq)]
pub struct Frame {
    bytes: [u8; BUFFER_SIZE],
    length: usize,
    response: usize,
}

impl View for Frame {
    type V = Seq<u8>;

    closed spec fn view(&self) -> Seq<u8> {
        self.bytes@.take(self.length as int)
    }
}

impl Frame {
    #[verifier::type_invariant]
    spec fn in_bounds(self) -> bool {
        MIN_WRITE_LENGTH <= self.length <= BUFFER_SIZE
    }

    /// The number of bytes with which the Maestro answers this frame.
    pub closed spec fn spec_response_len(self) -> usize {
        self.response
    }

    /// What follows a successful write of this frame: a read of the response
    /// if the Maestro answers the frame, nothing otherwise.
    pub open spec fn next(self) -> Action {
        if self.spec_response_len() == 0 {
            Action::Done
        } else {
            Action::Read(self.spec_response_len())
        }
    }

    /// The number of bytes with which the Maestro answers this frame.
    pub fn response_len(&self) -> (length: usize)
        ensures
            length == self.spec_response_len(),
    {
        self.response
    }

    /// The number of bytes in this frame.
    pub fn len(&self) -> (length: usize)
        ensures
            length == self@.len(),
            MIN_WRITE_LENGTH <= length <= BUFFER_SIZE,
    {
        proof {
            use_type_invariant(self);
        }
        self.length
    }

    /// The bytes of this frame, in the order in which they go over the wire.
    pub fn as_slice(&self) -> (bytes: &[u8])
        ensures
            bytes@ == self@,
    {
        proof {
            use_type_invariant(self);
        }
        slice_subrange(self.bytes.as_slice(), 0, self.length)
    }
}

#[derive(Debug, Copy, Clone)]
struct Buffers {
    read_buf: [u8; BUFFER_SIZE],
    write_buf: [u8; BUFFER_SIZE],
}

/// The main wrapper around the Maestro communications interface.
///
/// An `initialized` instance holds a read buffer and a write buffer and stands
/// for an open serial link. An `uninitialized` instance holds neither. No
/// other state exists: the buffers are present together or absent together.
#[derive(Debug)]
pub struct Maestro {
    buffers: Option<Buffers>,
}

impl View for Maestro {
    type V = State;

    closed spec fn view(&self) -> State {
        match self.buffers {
            None => State::Inactive,
            Some(buffers) => State::Active {
                read_buf: buffers.read_buf@,
                write_buf: buffers.write_buf@,
            },
        }
    }
}

/// # Basic public APIs
///
/// Everything required to get a `maestro` instance up and running.
impl Maestro {
    #[verifier::type_invariant]
    spec fn valid(self) -> bool {
        self@.well_formed()
    }

    /// Creates a new `maestro` instance in the `uninitialized` state.
    pub fn new() -> (maestro: Self)
        ensures
            maestro@ == State::Inactive,
    {
        Maestro { buffers: None }
    }

    /// The settings with which `start` expects the serial link to be opened:
    /// the given baud rate, 8 data bits, 1 stop bit, no parity, and reads that
    /// block for the default duration of 2 seconds.
    pub fn settings(baud_rate: BaudRates) -> (settings: PortSettings)
        ensures
            settings == port_settings(
                baud_rate.spec_value(),
                duration_of_secs(DEFAULT_BLOCKING_SECS),
            ),
    {
        PortSettings {
            baud_rate: baud_rate.value(),
            parity: Parity::Disabled,
            data_bits: DATA_BITS,
            stop_bits: STOP_BITS,
            read_mode: ReadMode {
                min_length: 0u8,
                timeout: duration_from_secs(DEFAULT_BLOCKING_SECS),
            },
        }
    }

    /// Transitions the given `maestro` instance to the `initialized` state if
    /// the serial link was opened and configured, as `opened` tells.
    ///
    /// On success both buffers are fresh, and the write buffer begins with the
    /// sync byte and the device number. On failure the instance is closed,
    /// whatever state it was in, and the failure of the link is returned.
    pub fn start(&mut self, opened: Result<(), UartError>) -> (result: Result<(), Error>)
        ensures
            opened is Ok ==> result is Ok && final(self)@ == State::started(),
            opened is Err ==> result == Err::<(), Error>(Error::Transport(flatten(opened->Err_0)))
                && final(self)@ == State::Inactive,
            final(self)@.well_formed(),
    {
        match opened {
            Ok(()) => {
                let read_buf = [0u8;BUFFER_SIZE];
                let mut write_buf = [0u8;BUFFER_SIZE];
                write_buf[0usize] = SYNC;
                write_buf[1usize] = DEVICE_NUMBER;
                assert(read_buf@ =~= seq![0u8, 0u8, 0u8, 0u8, 0u8, 0u8]);
                assert(write_buf@ =~= seq![SYNC, DEVICE_NUMBER, 0u8, 0u8, 0u8, 0u8]);
                self.buffers = Some(Buffers { read_buf, write_buf });
                Ok(())
            },
            Err(uart_error) => {
                self.close();
                Err(Error::from(uart_error))
            },
        }
    }

    /// Closes the `maestro` instance, that is, transitions it back into the
    /// `uninitialized` state and drops both buffers.
    ///
    /// The instance is no longer usable to communicate with the Maestro until
    /// `start` succeeds again.
    pub fn close(&mut self)
        ensures
            final(self)@ == old(self)@.closed(),
    {
        self.buffers = None;
    }

    /// The read mode that makes reads on the link block for `duration`.
    ///
    /// Returns an error if the `maestro` instance has not been initialized.
    pub fn set_block_duration(&self, duration: Duration) -> (result: Result<ReadMode, Error>)
        ensures
            self@ is Inactive ==> result == Err::<ReadMode, Error>(Error::Uninitialized),
            self@ is Active ==> result == Ok::<ReadMode, Error>(
                ReadMode { min_length: 0, timeout: duration },
            ),
    {
        if self.is_initialized() {
            Ok(ReadMode { min_length: 0u8, timeout: duration })
        } else {
            Err(Error::Uninitialized)
        }
    }

    /// Returns true iff the `maestro` instance is initialized.
    pub fn is_initialized(&self) -> (initialized: bool)
        ensures
            initialized == (self@ is Active),
    {
        self.buffers.is_some()
    }

    /// The write buffer of an initialized instance: the bytes of the frame
    /// that was encoded last, behind the sync byte and the device number.
    pub fn write_buffer(&self) -> (buffer: Option<[u8; BUFFER_SIZE]>)
        ensures
            self@ is Inactive ==> buffer is None,
            self@ is Active ==> buffer is Some && buffer->Some_0@ == self@->write_buf,
            self@.well_formed(),
    {
        proof {
            use_type_invariant(self);
        }
        match self.buffers {
            None => None,
            Some(buffers) => Some(buffers.write_buf),
        }
    }

    /// The read buffer of an initialized instance: the bytes of the response
    /// that was received last.
    pub fn read_buffer(&self) -> (buffer: Option<[u8; BUFFER_SIZE]>)
        ensures
            self@ is Inactive ==> buffer is None,
            self@ is Active ==> buffer is Some && buffer->Some_0@ == self@->read_buf,
    {
        match self.buffers {
            None => None,
            Some(buffers) => Some(buffers.read_buf),
        }
    }

    /// Performs a full check of the validity of a `maestro` instance: that an
    /// initialized instance has its frame header in place.
    ///
    /// No operation of this type leaves an invalid instance behind, so this
    /// function always returns true.
    pub fn is_valid(&self) -> (valid: bool)
        ensures
            valid,
            self@.well_formed(),
    {
        proof {
            use_type_invariant(self);
        }
        match self.buffers {
            None => true,
            Some(buffers) => buffers.write_buf[0usize] == SYNC && buffers.write_buf[1usize]
                == DEVICE_NUMBER,
        }
    }

    /// Forces the `maestro` instance into a state of validity: an invalid
    /// instance would be closed. As no instance is ever invalid, the instance
    /// is left as it is.
    pub fn force_into_validity(&mut self)
        ensures
            final(self)@ == old(self)@.forced_into_validity(),
            final(self)@.well_formed(),
            final(self)@ == old(self)@,
    {
        if !self.is_valid() {
            self.close()
        }
    }
}

impl State {
    /// The state that forcing validity leaves behind: a well-formed state as
    /// it is, and the closed state in place of any other.
    pub open spec fn forced_into_validity(self) -> State {
        if self.well_formed() {
            self
        } else {
            self.closed()
        }
    }
}

impl Default for Maestro {
    fn default() -> (maestro: Self)
        ensures
            maestro@ == State::Inactive,
    {
        Maestro::new()
    }
}

/// Whether `result` is what the state machine prescribes, and `after` the
/// session it leaves behind.
pub open spec fn request_met(
    before: State,
    command: Command,
    result: Result<Frame, Error>,
    after: State,
) -> bool {
    &&& after == before.after_request(command)
    &&& after.well_formed()
    &&& match result {
        Ok(frame) => before.request(command) == Ok::<Seq<u8>, Error>(frame@)
            && frame.spec_response_len() == command.response_len(),
        Err(error) => before.request(command) == Err::<Seq<u8>, Error>(error),
    }
}

/// Whether `result` and `after` are what encoding `frame` into a session in
/// state `before` gives, for a frame that the Maestro answers with `response`
/// bytes.
spec fn encoding_met(
    before: State,
    frame: Seq<u8>,
    response: usize,
    result: Result<Frame, Error>,
    after: State,
) -> bool {
    &&& after.well_formed()
    &&& before is Inactive ==> result == Err::<Frame, Error>(Error::Uninitialized) && after
        == before
    &&& before is Active ==> {
        &&& result is Ok
        &&& result->Ok_0@ == frame
        &&& result->Ok_0.spec_response_len() == response
        &&& after == before.with_frame(frame)
    }
}

/// # Pololu Micro Maestro protocols
///
/// The commands of the Pololu protocol that the Micro Maestro 6-Channel
/// supports. Each method encodes its command and returns the frame to write.
impl Maestro {
    /// Sets the target of the servo motor at the given channel, in quarter
    /// microseconds.
    ///
    /// The accepted range is from `3968` to `8000`, which is `992us` to
    /// `2000us`. Any value outside of this range is refused with
    /// `InvalidValue` before anything is encoded.
    pub fn set_target(&mut self, channel: Channels, target: u16) -> (result: Result<Frame, Error>)
        ensures
            request_met(old(self)@, Command::SetTarget(channel, target), result, final(self)@),
    {
        if !self.is_initialized() {
            Err(Error::Uninitialized)
        } else if MIN_QTR_PWM <= target && target <= MAX_QTR_PWM {
            self.write_channel_and_payload(CommandFlags::SET_TARGET, channel, target)
        } else {
            proof {
                use_type_invariant(&*self);
            }
            Err(Error::InvalidValue(target))
        }
    }

    /// Sets the rotational speed of the servo motor at the given channel, in
    /// units of `0.025 us / ms`.
    pub fn set_speed(&mut self, channel: Channels, speed: u16) -> (result: Result<Frame, Error>)
        ensures
            request_met(old(self)@, Command::SetSpeed(channel, speed), result, final(self)@),
    {
        self.write_channel_and_payload(CommandFlags::SET_SPEED, channel, speed)
    }

    /// Sets the rotational acceleration limit of the servo motor at the given
    /// channel, in units of `0.0003125 us / ms^2`.
    ///
    /// An acceleration of `0u8` commands the Maestro to set no limit.
    pub fn set_acceleration(&mut self, channel: Channels, acceleration: u8) -> (result: Result<
        Frame,
        Error,
    >)
        ensures
            request_met(
                old(self)@,
                Command::SetAcceleration(channel, acceleration),
                result,
                final(self)@,
            ),
    {
        self.write_channel_and_payload(CommandFlags::SET_ACCELERATION, channel, acceleration as u16)
    }

    /// Sends all servos to their home position.
    pub fn go_home(&mut self) -> (result: Result<Frame, Error>)
        ensures
            request_met(old(self)@, Command::GoHome, result, final(self)@),
    {
        self.write_command(CommandFlags::GO_HOME, 0usize)
    }

    /// Stops the script that is running on the Maestro.
    pub fn stop_script(&mut self) -> (result: Result<Frame, Error>)
        ensures
            request_met(old(self)@, Command::StopScript, result, final(self)@),
    {
        self.write_command(CommandFlags::STOP_SCRIPT, 0usize)
    }

    /// Asks for the `PWM` signal being broadcast to the servo at the given
    /// channel. The response is decoded by `read_after_writing`.
    ///
    /// The Maestro reports the signal it sends, in quarter microseconds. It
    /// cannot know whether a servo has reached that position.
    pub fn get_position(&mut self, channel: Channels) -> (result: Result<Frame, Error>)
        ensures
            request_met(old(self)@, Command::GetPosition(channel), result, final(self)@),
    {
        self.write_channel(CommandFlags::GET_POSITION, channel, RESPONSE_SIZE as usize)
    }

    /// Asks for the errors that the Maestro has met. The response is decoded
    /// by `errors_after_writing`.
    pub fn get_errors(&mut self) -> (result: Result<Frame, Error>)
        ensures
            request_met(old(self)@, Command::GetErrors, result, final(self)@),
    {
        self.write_command(CommandFlags::GET_ERRORS, RESPONSE_SIZE as usize)
    }
}

/// # Exchange primitives
///
/// The steps of an exchange that follow the encoding of a command.
impl Maestro {
    /// Decides whether the write of `frame` went through, given the link's
    /// answer to it: the number of bytes it accepted, or its failure. If it
    /// went through, says what follows: the read of the response for a query,
    /// nothing for the other commands.
    pub fn write(&self, frame: &Frame, written: Result<usize, UartError>) -> (result: Result<
        Action,
        Error,
    >)
        ensures
            self@ is Inactive ==> result == Err::<Action, Error>(Error::Uninitialized),
            self@ is Active ==> match write_outcome(frame@.len() as usize, written) {
                Ok(()) => result == Ok::<Action, Error>(frame.next()),
                Err(error) => result == Err::<Action, Error>(error),
            },
    {
        if !self.is_initialized() {
            return Err(Error::Uninitialized);
        }
        let length = frame.len();
        match written {
            Err(uart_error) => Err(Error::from(uart_error)),
            Ok(bytes_written) => {
                if bytes_written == length {
                    let response = frame.response_len();
                    if response == 0 {
                        Ok(Action::Done)
                    } else {
                        Ok(Action::Read(response))
                    }
                } else {
                    Err(Error::FaultyWrite { actual_count: bytes_written, expected_count: length })
                }
            },
        }
    }

    /// Takes what the link handed back from a read of `length` bytes into the
    /// read buffer, and decides whether the read went through.
    fn read(&mut self, length: usize, received: Result<Vec<u8>, UartError>) -> (result:
        Result<(), Error>)
        requires
            length <= BUFFER_SIZE,
        ensures
            old(self)@ is Inactive ==> result == Err::<(), Error>(Error::Uninitialized)
                && final(self)@ == old(self)@,
            old(self)@ is Active ==> result == read_outcome(length, received_view(received)),
            old(self)@ is Active && received is Ok ==> final(self)@ == old(self)@.with_response(
                length as int,
                received->Ok_0@,
            ),
            old(self)@ is Active && received is Err ==> final(self)@ == old(self)@,
            final(self)@.well_formed(),
    {
        proof {
            use_type_invariant(&*self);
        }
        let buffers = match self.buffers {
            None => {
                return Err(Error::Uninitialized);
            },
            Some(buffers) => buffers,
        };
        match received {
            Err(uart_error) => Err(Error::from(uart_error)),
            Ok(bytes) => {
                let bytes_read = bytes.len();
                let count = if bytes_read < length {
                    bytes_read
                } else {
                    length
                };
                let mut read_buf = buffers.read_buf;
                let mut i: usize = 0usize;
                while i < count
                    invariant
                        i <= count <= BUFFER_SIZE,
                        count <= bytes@.len(),
                        read_buf@.len() == BUFFER_SIZE,
                        forall|k: int| 0 <= k < i ==> read_buf@[k] == bytes@[k],
                        forall|k: int|
                            i <= k < BUFFER_SIZE ==> read_buf@[k] == buffers.read_buf@[k],
                    decreases count - i,
                {
                    read_buf[i] = bytes[i];
                    i += 1;
                }
                assert(read_buf@ =~= bytes@.take(count as int) + buffers.read_buf@.skip(
                    count as int,
                ));
                self.buffers = Some(Buffers { read_buf, write_buf: buffers.write_buf });
                if bytes_read == length {
                    Ok(())
                } else {
                    Err(Error::FaultyRead { actual_count: bytes_read })
                }
            },
        }
    }

    /// Encodes a command that carries a value to a channel into the write
    /// buffer, and returns the frame of six bytes.
    fn write_channel_and_payload(
        &mut self,
        command_flag: CommandFlags,
        channel: Channels,
        microsec: u16,
    ) -> (result: Result<Frame, Error>)
        ensures
            encoding_met(
                old(self)@,
                payload_frame(command_flag, channel, microsec),
                0,
                result,
                final(self)@,
            ),
    {
        proof {
            use_type_invariant(&*self);
        }
        let buffers = match self.buffers {
            None => {
                return Err(Error::Uninitialized);
            },
            Some(buffers) => buffers,
        };
        let length_to_write: usize = 6usize;
        let command = mask_byte(command_flag.value());
        let (lower, upper) = microsec_to_target(microsec);
        let mut buffer = buffers.write_buf;
        buffer[2usize] = command;
        buffer[3usize] = channel.value();
        buffer[4usize] = lower;
        buffer[5usize] = upper;
        let ghost frame = payload_frame(command_flag, channel, microsec);
        assert(buffer@ =~= frame + buffers.write_buf@.skip(6));
        assert(buffer@.take(6) =~= frame);
        self.buffers = Some(Buffers { read_buf: buffers.read_buf, write_buf: buffer });
        Ok(Frame { bytes: buffer, length: length_to_write, response: 0usize })
    }

    /// Encodes a command on a channel into the write buffer, and returns the
    /// frame of four bytes, which the Maestro answers with `response` bytes.
    fn write_channel(
        &mut self,
        command_flag: CommandFlags,
        channel: Channels,
        response: usize,
    ) -> (result: Result<Frame, Error>)
        ensures
            encoding_met(
                old(self)@,
                channel_frame(command_flag, channel),
                response,
                result,
                final(self)@,
            ),
    {
        proof {
            use_type_invariant(&*self);
        }
        let buffers = match self.buffers {
            None => {
                return Err(Error::Uninitialized);
            },
            Some(buffers) => buffers,
        };
        let length_to_write: usize = 4usize;
        let command = mask_byte(command_flag.value());
        let mut buffer = buffers.write_buf;
        buffer[2usize] = command;
        buffer[3usize] = channel.value();
        let ghost frame = channel_frame(command_flag, channel);
        assert(buffer@ =~= frame + buffers.write_buf@.skip(4));
        assert(buffer@.take(4) =~= frame);
        self.buffers = Some(Buffers { read_buf: buffers.read_buf, write_buf: buffer });
        Ok(Frame { bytes: buffer, length: length_to_write, response })
    }

    /// Encodes a command without arguments into the write buffer, and returns
    /// the frame of three bytes, which the Maestro answers with `response`
    /// bytes.
    fn write_command(&mut self, command_flag: CommandFlags, response: usize) -> (result: Result<
        Frame,
        Error,
    >)
        ensures
            encoding_met(old(self)@, command_frame(command_flag), response, result, final(self)@),
    {
        proof {
            use_type_invariant(&*self);
        }
        let buffers = match self.buffers {
            None => {
                return Err(Error::Uninitialized);
            },
            Some(buffers) => buffers,
        };
        let length_to_write: usize = 3usize;
        let command = mask_byte(command_flag.value());
        let mut buffer = buffers.write_buf;
        buffer[2usize] = command;
        let ghost frame = command_frame(command_flag);
        assert(buffer@ =~= frame + buffers.write_buf@.skip(3));
        assert(buffer@.take(3) =~= frame);
        self.buffers = Some(Buffers { read_buf: buffers.read_buf, write_buf: buffer });
        Ok(Frame { bytes: buffer, length: length_to_write, response })
    }

    /// Takes the first two bytes of the read buffer and assembles them, low
    /// byte first, into the `u16` that the Maestro sent.
    fn prepare_data_from_buffer(&self) -> (data: u16)
        requires
            self@ is Active,
        ensures
            data == response_value(self@->read_buf[0], self@->read_buf[1]),
    {
        proof {
            use_type_invariant(self);
        }
        let buffers = self.buffers.unwrap();
        let low: u8 = buffers.read_buf[0usize];
        let high: u8 = buffers.read_buf[1usize];
        assert(((high as u16) << 8usize) | (low as u16) == (high * 256 + low) as u16)
            by (bit_vector);
        ((high as u16) << 8usize) | (low as u16)
    }

    /// Decodes the response to `get_position` from what the link handed back
    /// from the read of `RESPONSE_SIZE` bytes that follows the write.
    ///
    /// The bytes that came are kept in the read buffer. Unless exactly
    /// `RESPONSE_SIZE` of them came, the read is faulty.
    pub fn read_after_writing(&mut self, received: Result<Vec<u8>, UartError>) -> (result: Result<
        u16,
        Error,
    >)
        ensures
            old(self)@ is Inactive ==> result == Err::<u16, Error>(Error::Uninitialized)
                && final(self)@ == old(self)@,
            old(self)@ is Active ==> result == response_outcome(received_view(received)),
            old(self)@ is Active && received is Ok ==> final(self)@ == old(self)@.with_response(
                RESPONSE_SIZE as int,
                received->Ok_0@,
            ),
            old(self)@ is Active && received is Err ==> final(self)@ == old(self)@,
            final(self)@.well_formed(),
    {
        match self.read(RESPONSE_SIZE as usize, received) {
            Err(error) => Err(error),
            Ok(()) => Ok(self.prepare_data_from_buffer()),
        }
    }

    /// Decodes the response to `get_errors` from what the link handed back
    /// from the read of `RESPONSE_SIZE` bytes that follows the write: the
    /// errors that the Maestro reports, in ascending order of their bits.
    pub fn errors_after_writing(&mut self, received: Result<Vec<u8>, UartError>) -> (result:
        Result<Vec<Errors>, Error>)
        ensures
            old(self)@ is Inactive ==> result == Err::<Vec<Errors>, Error>(Error::Uninitialized)
                && final(self)@ == old(self)@,
            old(self)@ is Active ==> match response_outcome(received_view(received)) {
                Ok(data) => result is Ok && result->Ok_0@ == Errors::spec_into_errors(data),
                Err(error) => result == Err::<Vec<Errors>, Error>(error),
            },
            old(self)@ is Active && received is Ok ==> final(self)@ == old(self)@.with_response(
                RESPONSE_SIZE as int,
                received->Ok_0@,
            ),
            old(self)@ is Active && received is Err ==> final(self)@ == old(self)@,
            final(self)@.well_formed(),
    {
        match self.read_after_writing(received) {
            Err(error) => Err(error),
            Ok(data) => Ok(Errors::into_errors(data)),
        }
    }
}

/// A target outside the accepted range is refused in every state, and the
/// session is left as it was: no frame comes back, so nothing is written. On
/// an initialized session the error is `InvalidValue` with the refused value.
pub proof fn lemma_invalid_target_is_refused(state: State, channel: Channels, target: u16)
    requires
        !valid_target(target),
    ensures
        state.request(Command::SetTarget(channel, target)) is Err,
        state.after_request(Command::SetTarget(channel, target)) == state,
        state is Active ==> state.request(Command::SetTarget(channel, target)) == Err::<
            Seq<u8>,
            Error,
        >(Error::InvalidValue(target)),
{
}

/// An uninitialized session, such as `new` makes, refuses every command with
/// `Uninitialized` and stays as it is.
pub proof fn lemma_inactive_session_refuses_every_command(command: Command)
    ensures
        State::Inactive.request(command) == Err::<Seq<u8>, Error>(Error::Uninitialized),
        State::Inactive.after_request(command) == State::Inactive,
{
}

/// A freshly started session is well formed: its write buffer begins with the
/// sync byte and the device number.
pub proof fn lemma_started_session_has_header()
    ensures
        State::started().well_formed(),
        State::started()->write_buf.take(2) == seq![0xAAu8, 0x0Cu8],
{
    assert(State::started()->write_buf.take(2) =~= seq![0xAAu8, 0x0Cu8]);
}

/// No command changes the first two bytes of the write buffer of an
/// initialized session, nor its read buffer, whether the command is accepted
/// or refused.
pub proof fn lemma_commands_keep_header(state: State, command: Command)
    requires
        state.well_formed(),
        state is Active,
    ensures
        state.after_request(command) is Active,
        state.after_request(command).well_formed(),
        state.after_request(command)->write_buf.take(2) == seq![0xAAu8, 0x0Cu8],
        state.after_request(command)->write_buf.take(2) == state->write_buf.take(2),
        state.after_request(command)->read_buf == state->read_buf,
{
    let after = state.after_request(command);
    assert(after->write_buf.take(2) =~= seq![0xAAu8, 0x0Cu8]);
    assert(state->write_buf.take(2) =~= seq![0xAAu8, 0x0Cu8]);
}

/// No response changes the write buffer of a session, so the header stays in
/// place across reads too.
pub proof fn lemma_responses_keep_header(state: State, length: int, received: Seq<u8>)
    requires
        state.well_formed(),
        state is Active,
        0 <= length <= BUFFER_SIZE,
    ensures
        state.with_response(length, received) is Active,
        state.with_response(length, received).well_formed(),
        state.with_response(length, received)->write_buf == state->write_buf,
{
}

/// A closed session refuses every command with `Uninitialized`, and closing a
/// session twice leaves it as closing it once does.
pub proof fn lemma_closed_session_refuses_every_command(state: State, command: Command)
    ensures
        state.closed().request(command) == Err::<Seq<u8>, Error>(Error::Uninitialized),
        state.closed().after_request(command) == state.closed(),
        state.closed().closed() == state.closed(),
        state.closed().well_formed(),
{
}

/// Every frame that a command method hands out has between `MIN_WRITE_LENGTH`
/// and `BUFFER_SIZE` bytes and begins with the sync byte and the device
/// number. The sync byte is the only byte of a frame with its top bit set: the
/// opcode goes out with its top bit cleared, and so does every byte behind it.
pub proof fn lemma_frame_shape(command: Command)
    ensures
        MIN_WRITE_LENGTH <= command.frame().len() <= BUFFER_SIZE,
        command.frame()[0] == SYNC,
        command.frame()[1] == DEVICE_NUMBER,
        command.frame()[2] & 0x80 == 0,
        forall|i: int| 1 <= i < command.frame().len() ==> #[trigger] command.frame()[i] < 128,
{
    assert forall|raw: u8| (#[trigger] (raw & 0x7f)) & 0x80 == 0 by {
        assert((raw & 0x7f) & 0x80 == 0) by (bit_vector);
    }
    assert forall|raw: u8| #[trigger] (raw & 0x7f) < 128 by {
        assert(raw & 0x7f < 128) by (bit_vector);
    }
}

/// Decoding a response is not the inverse of encoding a value: the two data
/// bytes of a value, read back as a response, give the value again only if it
/// is below 128.
pub proof fn lemma_decoding_does_not_invert_encoding(value: u16)
    ensures
        response_value(target_bytes(value).0, target_bytes(value).1) == value <==> value < 128,
{
}

} // verus!
