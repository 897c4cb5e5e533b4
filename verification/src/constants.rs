//! All constants defined and used by the Maestro for `UART` communication
//! through the Pololu protocol.
//!
//! The specifics of the protocol, as well as of the serial communication with
//! the Maestro, are in section 5.e of the Pololu Micro Maestro manual.

use crate::utils::{active_positions, bit_is_set};
use vstd::prelude::*;

verus! {

/// The byte that opens every frame.
pub const SYNC: u8 = 0xaau8;

/// The device number that follows the sync byte in every frame.
pub const DEVICE_NUMBER: u8 = 0x0cu8;

/// The number of data bits of a character on the serial link.
pub const DATA_BITS: u8 = 8u8;

/// The number of stop bits of a character on the serial link.
pub const STOP_BITS: u8 = 1u8;

/// The size of the write buffer and of the read buffer, which is also the
/// length of the longest frame.
pub const BUFFER_SIZE: usize = 6usize;

/// The length of the shortest frame.
pub const MIN_WRITE_LENGTH: usize = 3usize;

/// The number of bytes in a response of the Maestro.
pub const RESPONSE_SIZE: u8 = 2u8;

/// The number of seconds that a read blocks for when no other duration was
/// configured.
pub const DEFAULT_BLOCKING_SECS: u64 = 2u64;

/// The minimum PWM (in us) that can be sent to any channel by the Maestro.
///
/// The commands take quarter microseconds: see `MIN_QTR_PWM`.
pub const MIN_PWM: u16 = 992u16;

/// The maximum PWM (in us) that can be sent to any channel by the Maestro.
///
/// The commands take quarter microseconds: see `MAX_QTR_PWM`.
pub const MAX_PWM: u16 = 2000u16;

/// The minimum PWM (in quarter us) that can be sent to any channel by the
/// Maestro.
///
/// All values below `MIN_QTR_PWM` being used as parameters to `set_target`
/// will result in an error.
pub const MIN_QTR_PWM: u16 = 3968u16;

/// The maximum PWM (in quarter us) that can be sent to any channel by the
/// Maestro.
///
/// All values above `MAX_QTR_PWM` being used as parameters to `set_target`
/// will result in an error.
pub const MAX_QTR_PWM: u16 = 8000u16;

/// All available command flags supported by the Pololu protocol.
#[allow(non_camel_case_types)]
#[derive(Debug, Copy, Clone, PartialEq, Eq, Structural)]
pub enum CommandFlags {
    SET_TARGET,
    SET_SPEED,
    SET_ACCELERATION,
    GET_POSITION,
    GET_ERRORS,
    GO_HOME,
    STOP_SCRIPT,
    RESTART_SCRIPT_AT_SUBROUTINE,
    RESTART_SCRIPT_AT_SUBROUTINE_WITH_PARAMETER,
    GET_SCRIPT_STATUS,
}

impl CommandFlags {
    /// The opcode of each command.
    pub open spec fn spec_value(self) -> u8 {
        match self {
            CommandFlags::SET_TARGET => 0x84u8,
            CommandFlags::SET_SPEED => 0x87u8,
            CommandFlags::SET_ACCELERATION => 0x89u8,
            CommandFlags::GET_POSITION => 0x90u8,
            CommandFlags::GET_ERRORS => 0xA1u8,
            CommandFlags::GO_HOME => 0xA2u8,
            CommandFlags::STOP_SCRIPT => 0xA4u8,
            CommandFlags::RESTART_SCRIPT_AT_SUBROUTINE => 0xA7u8,
            CommandFlags::RESTART_SCRIPT_AT_SUBROUTINE_WITH_PARAMETER => 0xA8u8,
            CommandFlags::GET_SCRIPT_STATUS => 0xAEu8,
        }
    }

    /// The opcode of this command, before its top bit is cleared for the wire.
    pub fn value(self) -> (opcode: u8)
        ensures
            opcode == self.spec_value(),
    {
        match self {
            CommandFlags::SET_TARGET => 0x84u8,
            CommandFlags::SET_SPEED => 0x87u8,
            CommandFlags::SET_ACCELERATION => 0x89u8,
            CommandFlags::GET_POSITION => 0x90u8,
            CommandFlags::GET_ERRORS => 0xA1u8,
            CommandFlags::GO_HOME => 0xA2u8,
            CommandFlags::STOP_SCRIPT => 0xA4u8,
            CommandFlags::RESTART_SCRIPT_AT_SUBROUTINE => 0xA7u8,
            CommandFlags::RESTART_SCRIPT_AT_SUBROUTINE_WITH_PARAMETER => 0xA8u8,
            CommandFlags::GET_SCRIPT_STATUS => 0xAEu8,
        }
    }
}

/// All available channels to send commands to.
#[allow(non_camel_case_types)]
#[derive(Debug, Copy, Clone, PartialEq, Eq, Structural)]
pub enum Channels {
    C_0,
    C_1,
    C_2,
    C_3,
    C_4,
    C_5,
}

impl Channels {
    /// The byte that names each channel on the wire.
    pub open spec fn spec_value(self) -> u8 {
        match self {
            Channels::C_0 => 0x0u8,
            Channels::C_1 => 0x1u8,
            Channels::C_2 => 0x2u8,
            Channels::C_3 => 0x3u8,
            Channels::C_4 => 0x4u8,
            Channels::C_5 => 0x5u8,
        }
    }

    /// The byte that names this channel on the wire.
    pub fn value(self) -> (byte: u8)
        ensures
            byte == self.spec_value(),
            byte <= 5,
    {
        match self {
            Channels::C_0 => 0x0u8,
            Channels::C_1 => 0x1u8,
            Channels::C_2 => 0x2u8,
            Channels::C_3 => 0x3u8,
            Channels::C_4 => 0x4u8,
            Channels::C_5 => 0x5u8,
        }
    }
}

/// A single channel of the Maestro.
pub type Channel = Channels;

/// Available baudrates supported by the Maestro.
///
/// Note that not all baudrates have been specified.
#[allow(non_camel_case_types)]
#[derive(Debug, Copy, Clone, PartialEq, Eq, Structural)]
pub enum BaudRates {
    BR_50,
    BR_115200,
}

impl BaudRates {
    /// The speed of each rate, in bits per second.
    pub open spec fn spec_value(self) -> u32 {
        match self {
            BaudRates::BR_50 => 50u32,
            BaudRates::BR_115200 => 115200u32,
        }
    }

    /// The speed of this rate, in bits per second.
    pub fn value(self) -> (rate: u32)
        ensures
            rate == self.spec_value(),
    {
        match self {
            BaudRates::BR_50 => 50u32,
            BaudRates::BR_115200 => 115200u32,
        }
    }
}

/// A single baud rate of the serial link.
pub type BaudRate = BaudRates;

/// All available errors throwable by the Maestro.
///
/// The description of each variant follows section 4.e of the Pololu Micro
/// Maestro manual.
#[allow(non_camel_case_types)]
#[derive(Debug, Copy, Clone, PartialEq, Eq, Structural)]
pub enum Errors {
    /// A hardware-level error that occurs when a byte's stop bit is not
    /// detected at the expected place. This can occur if you are
    /// communicating at a baud rate that differs from the Maestro's baud rate.
    SER_SIGNAL_ERR,
    /// A hardware-level error that occurs when the UART's internal buffer
    /// fills up. This should not occur during normal operation.
    SER_OVERRUN_ERR,
    /// A firmware-level error that occurs when the firmware's buffer for bytes
    /// received on the RX line is full and a byte from RX has been lost as a
    /// result. This error should not occur during normal operation.
    SER_BUFFER_FULL,
    /// This error occurs when the Maestro is running in CRC-enabled mode and
    /// the cyclic redundancy check (CRC) byte at the end of the command packet
    /// does not match what the Maestro has computed as that packet's CRC. In
    /// such a case, the Maestro ignores the command packet and generates a CRC
    /// error.
    SER_CRC_ERR,
    /// This error occurs when the Maestro receives an incorrectly formatted or
    /// nonsensical command packet. For example, if the command byte does not
    /// match a known command or an unfinished command packet is interrupted by
    /// another command packet, this error occurs.
    SER_PROTOCOL_ERR,
    /// When the serial timeout is enabled, this error occurs whenever the
    /// timeout period has elapsed without the Maestro receiving any valid
    /// serial commands.
    SER_TIMEOUT,
    /// This error occurs when a bug in the user script has caused the stack to
    /// overflow or underflow.
    SCRIPT_STACK_ERR,
    /// This error occurs when a bug in the user script has caused the call
    /// stack to overflow or underflow.
    SCRIPT_CALL_STACK_ERR,
    /// This error occurs when a bug in the user script has caused the program
    /// counter to go out of bounds.
    SCRIPT_PC_ERR,
}

impl Errors {
    /// The error that the Maestro reports in bit number `data` of its error
    /// word, for the positions 0 to 8 at which it reports one.
    pub open spec fn spec_from(data: u16) -> Errors {
        if data == 0 {
            Errors::SER_SIGNAL_ERR
        } else if data == 1 {
            Errors::SER_OVERRUN_ERR
        } else if data == 2 {
            Errors::SER_BUFFER_FULL
        } else if data == 3 {
            Errors::SER_CRC_ERR
        } else if data == 4 {
            Errors::SER_PROTOCOL_ERR
        } else if data == 5 {
            Errors::SER_TIMEOUT
        } else if data == 6 {
            Errors::SCRIPT_STACK_ERR
        } else if data == 7 {
            Errors::SCRIPT_CALL_STACK_ERR
        } else {
            Errors::SCRIPT_PC_ERR
        }
    }

    /// The position of the bit in which the Maestro reports each error.
    pub open spec fn spec_bit(self) -> u16 {
        match self {
            Errors::SER_SIGNAL_ERR => 0u16,
            Errors::SER_OVERRUN_ERR => 1u16,
            Errors::SER_BUFFER_FULL => 2u16,
            Errors::SER_CRC_ERR => 3u16,
            Errors::SER_PROTOCOL_ERR => 4u16,
            Errors::SER_TIMEOUT => 5u16,
            Errors::SCRIPT_STACK_ERR => 6u16,
            Errors::SCRIPT_CALL_STACK_ERR => 7u16,
            Errors::SCRIPT_PC_ERR => 8u16,
        }
    }

    /// The position of the bit in which the Maestro reports this error.
    pub fn bit(self) -> (position: u16)
        ensures
            position == self.spec_bit(),
            position <= 8,
            Errors::spec_from(position) == self,
    {
        match self {
            Errors::SER_SIGNAL_ERR => 0u16,
            Errors::SER_OVERRUN_ERR => 1u16,
            Errors::SER_BUFFER_FULL => 2u16,
            Errors::SER_CRC_ERR => 3u16,
            Errors::SER_PROTOCOL_ERR => 4u16,
            Errors::SER_TIMEOUT => 5u16,
            Errors::SCRIPT_STACK_ERR => 6u16,
            Errors::SCRIPT_CALL_STACK_ERR => 7u16,
            Errors::SCRIPT_PC_ERR => 8u16,
        }
    }

    /// Converts a bit position into the `Errors` variant that the Maestro
    /// reports there. The Maestro knows nine errors, so the position is at
    /// most 8.
    pub fn from(data: u16) -> (error: Errors)
        requires
            data <= 8,
        ensures
            error == Errors::spec_from(data),
            error.spec_bit() == data,
    {
        if data == 0 {
            Errors::SER_SIGNAL_ERR
        } else if data == 1 {
            Errors::SER_OVERRUN_ERR
        } else if data == 2 {
            Errors::SER_BUFFER_FULL
        } else if data == 3 {
            Errors::SER_CRC_ERR
        } else if data == 4 {
            Errors::SER_PROTOCOL_ERR
        } else if data == 5 {
            Errors::SER_TIMEOUT
        } else if data == 6 {
            Errors::SCRIPT_STACK_ERR
        } else if data == 7 {
            Errors::SCRIPT_CALL_STACK_ERR
        } else {
            Errors::SCRIPT_PC_ERR
        }
    }

    /// The errors that the error word `data` reports: one for each of its bits
    /// 0 to 8 that is set, in ascending order of the bits.
    pub open spec fn spec_into_errors(data: u16) -> Seq<Errors> {
        Seq::new(
            active_positions(data, 9).len(),
            |i: int| Errors::spec_from(active_positions(data, 9)[i]),
        )
    }

    /// Converts the `u16` returned from the Maestro that represents an error
    /// into a vector of `Errors`. Each bit position in the `u16` stands for a
    /// specific error, and the bit is set exactly if that error was
    /// encountered. There are only 9 possible Maestro errors, so only bits 0
    /// to 8 are looked at. All other bits are ignored.
    pub fn into_errors(data: u16) -> (errors: Vec<Errors>)
        ensures
            errors@ == Errors::spec_into_errors(data),
    {
        let mask: u16 = 0x0001u16;
        let mut rest: u16 = data;
        let mut vec: Vec<Errors> = Vec::with_capacity(9usize);
        let mut i: u16 = 0u16;
        assert(data >> 0u16 == data) by (bit_vector);
        while i <= 8u16
            invariant
                i <= 9,
                mask == 1,
                i <= 8 ==> rest == data >> i,
                vec@.len() == active_positions(data, i as nat).len(),
                forall|k: int|
                    0 <= k < vec@.len() ==> vec@[k] == Errors::spec_from(
                        #[trigger] active_positions(data, i as nat)[k],
                    ),
            decreases 9 - i,
        {
            assert(bit_is_set(data, i) == ((rest & mask) == mask)) by {
                assert(rest & 1 == (data >> i) & 1);
            }
            if (rest & mask) == mask {
                vec.push(Errors::from(i));
            }
            assert(i < 8 ==> (data >> i) >> 1usize == data >> ((i + 1) as u16)) by (bit_vector);
            rest = rest >> 1usize;
            i += 1;
        }
        assert(vec@ =~= Errors::spec_into_errors(data));
        vec
    }
}

/// Every error that `spec_into_errors` lists was reported by a set bit among
/// bits 0 to 8 of the error word, every such bit is listed, and the list is in
/// strictly ascending order of the bits.
pub proof fn lemma_into_errors_lists_set_bits(data: u16)
    ensures
        Errors::spec_into_errors(data).len() <= 9,
        forall|i: int|
            0 <= i < Errors::spec_into_errors(data).len() ==> bit_is_set(
                data,
                (#[trigger] Errors::spec_into_errors(data)[i]).spec_bit(),
            ),
        forall|error: Errors| #[trigger]
            bit_is_set(data, error.spec_bit()) ==> Errors::spec_into_errors(data).contains(error),
        forall|i: int, j: int|
            0 <= i < j < Errors::spec_into_errors(data).len() ==> (
            #[trigger] Errors::spec_into_errors(data)[i]).spec_bit() < (
            #[trigger] Errors::spec_into_errors(data)[j]).spec_bit(),
{
    crate::utils::lemma_active_positions(data, 9);
    let positions = active_positions(data, 9);
    let errors = Errors::spec_into_errors(data);
    assert forall|i: int| 0 <= i < errors.len() implies (#[trigger] errors[i]).spec_bit()
        == positions[i] by {
        assert(positions[i] < 9);
    }
    assert forall|error: Errors| #[trigger]
        bit_is_set(data, error.spec_bit()) implies errors.contains(error) by {
        assert(positions.contains(error.spec_bit()));
        let k = choose|k: int| 0 <= k < positions.len() && positions[k] == error.spec_bit();
        assert(errors[k] == error);
    }
}

/// Bits 9 to 15 of the error word report nothing.
pub proof fn lemma_into_errors_ignores_high_bits(data: u16)
    ensures
        Errors::spec_into_errors(data) == Errors::spec_into_errors(data & 0x01ff),
{
    assert forall|bit: u16| bit < 9 implies bit_is_set(data, bit) == bit_is_set(
        data & 0x01ff,
        bit,
    ) by {
        assert(bit < 9 ==> ((data >> bit) & 1 == 1) == (((data & 0x01ff) >> bit) & 1 == 1))
            by (bit_vector);
    }
    crate::utils::lemma_active_positions_ignore_high_bits(data, data & 0x01ff, 9);
}

} // verus!
