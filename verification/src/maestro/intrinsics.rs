//! The vocabulary of the builder interface: channels, baud rates and the
//! errors of the board under their plain names.

use crate::constants;
use crate::utils::{active_positions, bit_is_set};
use vstd::prelude::*;

verus! {

/// All available channels to send commands to.
#[derive(Debug, Copy, Clone, PartialEq, Eq, Structural)]
pub enum Channels {
    Channel0,
    Channel1,
    Channel2,
    Channel3,
    Channel4,
    Channel5,
}

impl Channels {
    /// The byte that names each channel on the wire.
    pub open spec fn spec_value(self) -> u8 {
        match self {
            Channels::Channel0 => 0x0u8,
            Channels::Channel1 => 0x1u8,
            Channels::Channel2 => 0x2u8,
            Channels::Channel3 => 0x3u8,
            Channels::Channel4 => 0x4u8,
            Channels::Channel5 => 0x5u8,
        }
    }

    /// The byte that names this channel on the wire.
    pub fn value(self) -> (byte: u8)
        ensures
            byte == self.spec_value(),
    {
        self.channel().value()
    }

    /// This channel as the command methods of a session take it.
    pub fn channel(self) -> (channel: constants::Channels)
        ensures
            channel.spec_value() == self.spec_value(),
    {
        match self {
            Channels::Channel0 => constants::Channels::C_0,
            Channels::Channel1 => constants::Channels::C_1,
            Channels::Channel2 => constants::Channels::C_2,
            Channels::Channel3 => constants::Channels::C_3,
            Channels::Channel4 => constants::Channels::C_4,
            Channels::Channel5 => constants::Channels::C_5,
        }
    }
}

/// Available baudrates supported by the Maestro.
///
/// Note that not all baudrates have been specified.
#[derive(Debug, Copy, Clone, PartialEq, Eq, Structural)]
pub enum Baudrate {
    /// 50 bits per second.
    Baudrate50,
    /// 115200 bits per second.
    Baudrate11520,
}

impl Baudrate {
    /// The speed of each rate, in bits per second.
    pub open spec fn spec_value(self) -> u32 {
        match self {
            Baudrate::Baudrate50 => 50u32,
            Baudrate::Baudrate11520 => 115200u32,
        }
    }

    /// The speed of this rate, in bits per second.
    pub fn value(self) -> (rate: u32)
        ensures
            rate == self.spec_value(),
    {
        match self {
            Baudrate::Baudrate50 => 50u32,
            Baudrate::Baudrate11520 => 115200u32,
        }
    }
}

/// All available errors throwable by the Maestro board.
///
/// The description of each variant follows section 4.e of the Pololu Micro
/// Maestro manual.
#[derive(Debug, Copy, Clone, PartialEq, Eq, Structural)]
pub enum MaestroError {
    /// A hardware-level error that occurs when a byte's stop bit is not
    /// detected at the expected place. This can occur if you are
    /// communicating at a baud rate that differs from the Maestro's baud rate.
    SerSignalError,
    /// A hardware-level error that occurs when the UART's internal buffer
    /// fills up. This should not occur during normal operation.
    SerOverrunError,
    /// A firmware-level error that occurs when the firmware's buffer for bytes
    /// received on the RX line is full and a byte from RX has been lost as a
    /// result. This error should not occur during normal operation.
    SerBufferFull,
    /// This error occurs when the Maestro is running in CRC-enabled mode and
    /// the cyclic redundancy check (CRC) byte at the end of the command packet
    /// does not match what the Maestro has computed as that packet's CRC.
    SerCrcError,
    /// This error occurs when the Maestro receives an incorrectly formatted or
    /// nonsensical command packet.
    SerProtocolError,
    /// When the serial timeout is enabled, this error occurs whenever the
    /// timeout period has elapsed without the Maestro receiving any valid
    /// serial commands.
    SerTimeout,
    /// This error occurs when a bug in the user script has caused the stack to
    /// overflow or underflow.
    ScriptStackError,
    /// This error occurs when a bug in the user script has caused the call
    /// stack to overflow or underflow.
    ScriptCallStackError,
    /// This error occurs when a bug in the user script has caused the program
    /// counter to go out of bounds.
    ScriptPcError,
}

impl MaestroError {
    /// The error that the Maestro reports in bit number `data` of its error
    /// word, for the positions 0 to 8 at which it reports one.
    pub open spec fn spec_from(data: u16) -> MaestroError {
        if data == 0 {
            MaestroError::SerSignalError
        } else if data == 1 {
            MaestroError::SerOverrunError
        } else if data == 2 {
            MaestroError::SerBufferFull
        } else if data == 3 {
            MaestroError::SerCrcError
        } else if data == 4 {
            MaestroError::SerProtocolError
        } else if data == 5 {
            MaestroError::SerTimeout
        } else if data == 6 {
            MaestroError::ScriptStackError
        } else if data == 7 {
            MaestroError::ScriptCallStackError
        } else {
            MaestroError::ScriptPcError
        }
    }

    /// The position of the bit in which the Maestro reports each error.
    pub open spec fn spec_bit(self) -> u16 {
        match self {
            MaestroError::SerSignalError => 0u16,
            MaestroError::SerOverrunError => 1u16,
            MaestroError::SerBufferFull => 2u16,
            MaestroError::SerCrcError => 3u16,
            MaestroError::SerProtocolError => 4u16,
            MaestroError::SerTimeout => 5u16,
            MaestroError::ScriptStackError => 6u16,
            MaestroError::ScriptCallStackError => 7u16,
            MaestroError::ScriptPcError => 8u16,
        }
    }

    /// Converts a bit position into the error that the Maestro reports there.
    /// The Maestro knows nine errors, so the position is at most 8.
    pub fn from(data: u16) -> (error: MaestroError)
        requires
            data <= 8,
        ensures
            error == MaestroError::spec_from(data),
            error.spec_bit() == data,
    {
        if data == 0 {
            MaestroError::SerSignalError
        } else if data == 1 {
            MaestroError::SerOverrunError
        } else if data == 2 {
            MaestroError::SerBufferFull
        } else if data == 3 {
            MaestroError::SerCrcError
        } else if data == 4 {
            MaestroError::SerProtocolError
        } else if data == 5 {
            MaestroError::SerTimeout
        } else if data == 6 {
            MaestroError::ScriptStackError
        } else if data == 7 {
            MaestroError::ScriptCallStackError
        } else {
            MaestroError::ScriptPcError
        }
    }

    /// This error under the name that the manual gives it.
    pub fn errors(self) -> (error: constants::Errors)
        ensures
            error.spec_bit() == self.spec_bit(),
    {
        match self {
            MaestroError::SerSignalError => constants::Errors::SER_SIGNAL_ERR,
            MaestroError::SerOverrunError => constants::Errors::SER_OVERRUN_ERR,
            MaestroError::SerBufferFull => constants::Errors::SER_BUFFER_FULL,
            MaestroError::SerCrcError => constants::Errors::SER_CRC_ERR,
            MaestroError::SerProtocolError => constants::Errors::SER_PROTOCOL_ERR,
            MaestroError::SerTimeout => constants::Errors::SER_TIMEOUT,
            MaestroError::ScriptStackError => constants::Errors::SCRIPT_STACK_ERR,
            MaestroError::ScriptCallStackError => constants::Errors::SCRIPT_CALL_STACK_ERR,
            MaestroError::ScriptPcError => constants::Errors::SCRIPT_PC_ERR,
        }
    }

    /// The errors that the error word `data` reports: one for each of its bits
    /// 0 to 8 that is set, in ascending order of the bits.
    pub open spec fn spec_from_data(data: u16) -> Seq<MaestroError> {
        Seq::new(
            active_positions(data, 9).len(),
            |i: int| MaestroError::spec_from(active_positions(data, 9)[i]),
        )
    }

    /// Converts the [`u16`] returned from the Maestro that represents an error
    /// into a vector of errors.
    ///
    /// Each bit position in the [`u16`] stands for a specific error, and the
    /// bit is set exactly if that error was encountered. There are only 9
    /// possible Maestro errors, so only bit 0 to bit 8 are looked at. All
    /// other bits are ignored.
    pub fn from_data(data: u16) -> (errors: Vec<MaestroError>)
        ensures
            errors@ == MaestroError::spec_from_data(data),
    {
        let mask: u16 = 0x0001u16;
        let mut rest: u16 = data;
        let mut errors: Vec<MaestroError> = Vec::new();
        let mut index: u16 = 0u16;
        assert(data >> 0u16 == data) by (bit_vector);
        while index <= 8u16
            invariant
                index <= 9,
                mask == 1,
                index <= 8 ==> rest == data >> index,
                errors@.len() == active_positions(data, index as nat).len(),
                forall|k: int|
                    0 <= k < errors@.len() ==> errors@[k] == MaestroError::spec_from(
                        #[trigger] active_positions(data, index as nat)[k],
                    ),
            decreases 9 - index,
        {
            let masked_data = rest & mask;
            assert(bit_is_set(data, index) == (masked_data == mask)) by {
                assert(rest & 1 == (data >> index) & 1);
            }
            if masked_data == mask {
                let error = MaestroError::from(index);
                errors.push(error);
            }
            assert(index < 8 ==> (data >> index) >> 1usize == data >> ((index + 1) as u16))
                by (bit_vector);
            rest = rest >> 1usize;
            index += 1;
        }
        assert(errors@ =~= MaestroError::spec_from_data(data));
        errors
    }
}

/// Both decoders of the error word report the same errors: as many, and at
/// each place the error of the same bit.
pub proof fn lemma_from_data_agrees_with_into_errors(data: u16)
    ensures
        MaestroError::spec_from_data(data).len() == constants::Errors::spec_into_errors(data).len(),
        forall|i: int|
            0 <= i < MaestroError::spec_from_data(data).len() ==> (
            #[trigger] MaestroError::spec_from_data(data)[i]).spec_bit()
                == constants::Errors::spec_into_errors(data)[i].spec_bit(),
{
    crate::utils::lemma_active_positions(data, 9);
    let positions = active_positions(data, 9);
    assert forall|i: int| 0 <= i < MaestroError::spec_from_data(data).len() implies (
    #[trigger] MaestroError::spec_from_data(data)[i]).spec_bit()
        == constants::Errors::spec_into_errors(data)[i].spec_bit() by {
        assert(positions[i] < 9);
    }
}

} // verus!
