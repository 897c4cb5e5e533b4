//! Implementation of the builder pattern to build an instance of
//! [`Maestro`].
//!
//! A builder collects the baud rate and the duration for which reads block.
//! [`Builder::settings`] turns them into the settings to open the serial link
//! with, and [`Maestro::try_from`] makes an initialized session of the builder
//! once the link was opened.
//!
//! The fields of the [`Builder`] struct are public, so that they can be set by
//! hand as well.

use crate::constants::{DATA_BITS, STOP_BITS};
use crate::errors::{flatten, Error, UartError};
use crate::maestro::intrinsics::Baudrate;
use crate::maestro::{
    duration_from_secs, duration_of_secs, port_settings, Maestro, Parity, PortSettings, ReadMode,
    State,
};
use std::time::Duration;
use vstd::prelude::*;

verus! {

/// A builder into which configurations for the [`Maestro`] can be set.
pub struct Builder {
    /// The baudrate setting.
    pub baudrate: Option<Baudrate>,
    /// How long to wait for a response before quitting and returning.
    pub block_duration: Option<Duration>,
}

impl Default for Builder {
    fn default() -> (builder: Self)
        ensures
            builder.baudrate is None,
            builder.block_duration is None,
    {
        Builder { baudrate: None, block_duration: None }
    }
}

impl Builder {
    /// Convenience function to configure the baudrate for this builder.
    pub fn baudrate(self, baudrate: Baudrate) -> (builder: Self)
        ensures
            builder.baudrate == Some(baudrate),
            builder.block_duration == self.block_duration,
    {
        let baudrate = Some(baudrate);
        Self { baudrate, block_duration: self.block_duration }
    }

    /// Convenience function to configure the block-duration for this builder.
    pub fn block_duration(self, block_duration: Duration) -> (builder: Self)
        ensures
            builder.block_duration == Some(block_duration),
            builder.baudrate == self.baudrate,
    {
        let block_duration = Some(block_duration);
        Self { block_duration, baudrate: self.baudrate }
    }

    /// The duration for which reads block under this builder: the one that was
    /// set, or none at all.
    pub open spec fn spec_block_duration(self) -> Duration {
        match self.block_duration {
            Some(duration) => duration,
            None => duration_of_secs(0),
        }
    }

    /// The settings to open the serial link with: the baud rate of this
    /// builder, 8 data bits, 1 stop bit, no parity, and reads that block for
    /// the duration of this builder, or not at all if none was set.
    ///
    /// A builder without a baud rate has no settings; the error is
    /// `Uninitialized`.
    pub fn settings(&self) -> (result: Result<PortSettings, Error>)
        ensures
            self.baudrate is None ==> result == Err::<PortSettings, Error>(Error::Uninitialized),
            self.baudrate is Some ==> result == Ok::<PortSettings, Error>(
                port_settings(self.baudrate->Some_0.spec_value(), self.spec_block_duration()),
            ),
    {
        let baudrate = match self.baudrate {
            None => {
                return Err(Error::Uninitialized);
            },
            Some(baudrate) => baudrate.value(),
        };
        let block_duration = match self.block_duration {
            Some(duration) => duration,
            None => duration_from_secs(0u64),
        };
        Ok(
            PortSettings {
                baud_rate: baudrate,
                parity: Parity::Disabled,
                data_bits: DATA_BITS,
                stop_bits: STOP_BITS,
                read_mode: ReadMode { min_length: 0u8, timeout: block_duration },
            },
        )
    }
}

impl Maestro {
    /// Makes a session of a builder, given whether the serial link could be
    /// opened and configured with the settings of the builder.
    ///
    /// A builder without a baud rate is refused with `Uninitialized`,
    /// whatever `opened` holds. A failure of the link is returned as it
    /// is, and no session comes into being. Otherwise the session is
    /// initialized, with the sync byte and the device number in place.
    pub fn try_from(builder: Builder, opened: Result<(), UartError>) -> (result: Result<
        Maestro,
        Error,
    >)
        ensures
            builder.baudrate is None ==> result is Err && result->Err_0 == Error::Uninitialized,
            builder.baudrate is Some && opened is Err ==> result is Err && result->Err_0
                == Error::Transport(flatten(opened->Err_0)),
            builder.baudrate is Some && opened is Ok ==> result is Ok && result->Ok_0@
                == State::started(),
    {
        if builder.baudrate.is_none() {
            return Err(Error::Uninitialized);
        }
        let mut maestro = Maestro::new();
        match maestro.start(opened) {
            Ok(()) => Ok(maestro),
            Err(error) => Err(error),
        }
    }
}

} // verus!
