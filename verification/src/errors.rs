//! The crate-wide error definitions.
//!
//! The serial link reports its failures in a nested taxonomy of its own:
//! [`UartError`], which may hold a [`GpioError`], either of which may hold an
//! operating-system [`IoError`]. The driver flattens that taxonomy, one leaf
//! to one variant, into [`TransportError`] and carries it in
//! [`Error::Transport`], so that nothing the link reported is lost.

use vstd::prelude::*;

verus! {

/// The class under which an I/O failure is reported.
#[derive(Debug, Clone, Copy, PartialEq, Eq, Structural)]
pub enum IoErrorKind {
    NotFound,
    PermissionDenied,
    AddrInUse,
    AddrNotAvailable,
    BrokenPipe,
    AlreadyExists,
    WouldBlock,
    InvalidInput,
    InvalidData,
    TimedOut,
    WriteZero,
    Interrupted,
    Unsupported,
    UnexpectedEof,
    OutOfMemory,
    Other,
}

/// A failure reported by the operating system: its class and its message.
#[derive(Debug, Clone, PartialEq, Eq)]
pub struct IoError {
    pub kind: IoErrorKind,
    pub message: String,
}

/// A failure of the pins that the serial link is wired to.
#[derive(Debug, Clone, PartialEq, Eq)]
pub enum GpioError {
    /// The model of the host board cannot be identified.
    UnknownModel,
    /// The pin with this number is already in use.
    PinUsed(u8),
    /// The host exposes no pin with this number.
    PinNotAvailable(u8),
    /// The device file with this path cannot be opened for reading and writing.
    PermissionDenied(String),
    /// The operating system reported a failure.
    Io(IoError),
    /// A thread of the pin driver panicked.
    ThreadPanic,
}

/// A failure of the serial link, as the link itself reports it.
#[derive(Debug, Clone, PartialEq, Eq)]
pub enum UartError {
    /// The operating system reported a failure.
    Io(IoError),
    /// The pins of the link failed.
    Gpio(GpioError),
    /// A setting of the link is invalid or unsupported.
    InvalidValue,
}

/// Every failure that the serial link can report, one variant for each leaf of
/// [`UartError`].
#[derive(Debug, Clone, PartialEq, Eq)]
pub enum TransportError {
    /// The operating system reported a failure, on the link or on its pins.
    Io(IoError),
    /// The model of the host board cannot be identified.
    UnknownModel,
    /// The host exposes no pin with this number.
    PinNotAvailable(u8),
    /// The device file with this path cannot be opened for reading and writing.
    PermissionDenied(String),
    /// A thread of the pin driver panicked.
    ThreadPanic,
    /// The pin with this number is already in use.
    PinUsed(u8),
    /// A setting of the link is invalid or unsupported.
    InvalidValue,
}

/// The custom `raestro` error type.
///
/// No kind is retried inside the driver: each is returned to the caller of the
/// operation that met it.
#[derive(Debug, Clone, PartialEq, Eq)]
pub enum Error {
    /// The `maestro` instance is in the `uninitialized` state.
    Uninitialized,
    /// An invalid value was passed in as a parameter. Used when a target
    /// outside the accepted range is passed to `set_target`.
    InvalidValue(u16),
    /// The number of bytes received from the Maestro differs from the size of
    /// a response.
    FaultyRead {
        /// The number of bytes actually read.
        actual_count: usize,
    },
    /// The number of bytes that the link accepted differs from the length of
    /// the frame that was sent.
    FaultyWrite {
        /// Number of bytes actually written.
        actual_count: usize,
        /// Number of bytes expected to be written.
        expected_count: usize,
    },
    /// Any failure reported by the serial link.
    Transport(TransportError),
}

/// The leaf of the link's taxonomy that `gpio_error` stands for.
pub open spec fn flatten_gpio(gpio_error: GpioError) -> TransportError {
    match gpio_error {
        GpioError::UnknownModel => TransportError::UnknownModel,
        GpioError::PinUsed(pin) => TransportError::PinUsed(pin),
        GpioError::PinNotAvailable(pin) => TransportError::PinNotAvailable(pin),
        GpioError::PermissionDenied(path) => TransportError::PermissionDenied(path),
        GpioError::Io(err) => TransportError::Io(err),
        GpioError::ThreadPanic => TransportError::ThreadPanic,
    }
}

/// The leaf of the link's taxonomy that `uart_error` stands for.
pub open spec fn flatten(uart_error: UartError) -> TransportError {
    match uart_error {
        UartError::Io(err) => TransportError::Io(err),
        UartError::Gpio(gpio_error) => flatten_gpio(gpio_error),
        UartError::InvalidValue => TransportError::InvalidValue,
    }
}

/// The character that stands for a digit below ten.
pub open spec fn digit(value: nat) -> Seq<char> {
    if value == 0 {
        "0"@
    } else if value == 1 {
        "1"@
    } else if value == 2 {
        "2"@
    } else if value == 3 {
        "3"@
    } else if value == 4 {
        "4"@
    } else if value == 5 {
        "5"@
    } else if value == 6 {
        "6"@
    } else if value == 7 {
        "7"@
    } else if value == 8 {
        "8"@
    } else {
        "9"@
    }
}

/// The decimal digits of a number, without leading zeros.
pub open spec fn decimal(value: nat) -> Seq<char>
    decreases value,
{
    if value < 10 {
        digit(value)
    } else {
        decimal(value / 10) + digit(value % 10)
    }
}

/// The text of a digit below ten.
fn digit_text(value: usize) -> (text: &'static str)
    requires
        value < 10,
    ensures
        text@ == digit(value as nat),
{
    if value == 0 {
        "0"
    } else if value == 1 {
        "1"
    } else if value == 2 {
        "2"
    } else if value == 3 {
        "3"
    } else if value == 4 {
        "4"
    } else if value == 5 {
        "5"
    } else if value == 6 {
        "6"
    } else if value == 7 {
        "7"
    } else if value == 8 {
        "8"
    } else {
        "9"
    }
}

/// Writes a number in decimal digits, without leading zeros.
pub fn decimal_text(value: usize) -> (text: String)
    ensures
        text@ == decimal(value as nat),
    decreases value,
{
    if value < 10 {
        String::from_str(digit_text(value))
    } else {
        decimal_text(value / 10).concat(digit_text(value % 10))
    }
}

impl TransportError {
    /// The I/O class of each failure.
    pub open spec fn spec_kind(self) -> IoErrorKind {
        match self {
            TransportError::Io(err) => err.kind,
            TransportError::UnknownModel => IoErrorKind::Other,
            TransportError::PinNotAvailable(_) => IoErrorKind::AddrNotAvailable,
            TransportError::PermissionDenied(_) => IoErrorKind::PermissionDenied,
            TransportError::ThreadPanic => IoErrorKind::Other,
            TransportError::PinUsed(_) => IoErrorKind::AddrInUse,
            TransportError::InvalidValue => IoErrorKind::Other,
        }
    }

    /// The text of each failure.
    pub open spec fn spec_message(self) -> Seq<char> {
        match self {
            TransportError::Io(err) => err.message@,
            TransportError::UnknownModel => "Unknown model."@,
            TransportError::PinNotAvailable(pin) => "Pin number "@ + decimal(pin as nat)
                + " is not available."@,
            TransportError::PermissionDenied(path) => "Permission denied: "@ + path@ + "."@,
            TransportError::ThreadPanic => "Thread panic."@,
            TransportError::PinUsed(_) => "That pin is already being used."@,
            TransportError::InvalidValue => "Invalid value."@,
        }
    }

    /// The text that describes this failure to a reader: the operating
    /// system's own message, or a sentence that names the pin or the device
    /// file where the link reported one.
    pub fn message(&self) -> (text: String)
        ensures
            text@ == self.spec_message(),
    {
        match self {
            TransportError::Io(err) => err.message.clone(),
            TransportError::UnknownModel => String::from_str("Unknown model."),
            TransportError::PinNotAvailable(pin) => {
                let number = decimal_text(*pin as usize);
                String::from_str("Pin number ").concat(number.as_str()).concat(
                    " is not available.",
                )
            },
            TransportError::PermissionDenied(path) => String::from_str(
                "Permission denied: ",
            ).concat(path.as_str()).concat("."),
            TransportError::ThreadPanic => String::from_str("Thread panic."),
            TransportError::PinUsed(_) => String::from_str("That pin is already being used."),
            TransportError::InvalidValue => String::from_str("Invalid value."),
        }
    }

    /// The I/O class under which this failure is reported: that of the
    /// operating system's own report, the address classes for a pin that is
    /// missing or taken, the permission class for a device file that cannot be
    /// opened, and `Other` for the rest.
    pub fn kind(&self) -> (kind: IoErrorKind)
        ensures
            kind == self.spec_kind(),
    {
        match self {
            TransportError::Io(err) => err.kind,
            TransportError::UnknownModel => IoErrorKind::Other,
            TransportError::PinNotAvailable(_) => IoErrorKind::AddrNotAvailable,
            TransportError::PermissionDenied(_) => IoErrorKind::PermissionDenied,
            TransportError::ThreadPanic => IoErrorKind::Other,
            TransportError::PinUsed(_) => IoErrorKind::AddrInUse,
            TransportError::InvalidValue => IoErrorKind::Other,
        }
    }
}

impl Error {
    /// Constructs the error for an operating-system failure of the given class
    /// and message.
    pub fn new_io_error(err_kind: IoErrorKind, err_msg: String) -> (error: Self)
        ensures
            error == Error::Transport(
                TransportError::Io(IoError { kind: err_kind, message: err_msg }),
            ),
    {
        Error::Transport(TransportError::Io(IoError { kind: err_kind, message: err_msg }))
    }

    /// The text of each error.
    pub open spec fn spec_message(self) -> Seq<char> {
        match self {
            Error::Uninitialized => "Maestro struct is uninitialized."@,
            Error::InvalidValue(value) =>
                "Target must be between 3968 quarter-us (992us) and 8000 quarter-us (2000us) but "@
                + decimal(value as nat) + " quarter-us was used."@,
            Error::FaultyRead { actual_count } => "2 bytes were expected to be read but only "@
                + decimal(actual_count as nat) + " byte(s) were actually read."@,
            Error::FaultyWrite { actual_count, expected_count } => decimal(expected_count as nat)
                + " bytes were expected to be written, but only "@ + decimal(actual_count as nat)
                + " byte(s) were actually written."@,
            Error::Transport(failure) => failure.spec_message(),
        }
    }

    /// The text that describes this error to a reader.
    pub fn message(&self) -> (text: String)
        ensures
            text@ == self.spec_message(),
    {
        match self {
            Error::Uninitialized => String::from_str("Maestro struct is uninitialized."),
            Error::InvalidValue(value) => {
                let number = decimal_text(*value as usize);
                String::from_str(
                    "Target must be between 3968 quarter-us (992us) and 8000 quarter-us (2000us) but ",
                ).concat(number.as_str()).concat(" quarter-us was used.")
            },
            Error::FaultyRead { actual_count } => {
                let number = decimal_text(*actual_count);
                String::from_str("2 bytes were expected to be read but only ").concat(
                    number.as_str(),
                ).concat(" byte(s) were actually read.")
            },
            Error::FaultyWrite { actual_count, expected_count } => {
                let expected = decimal_text(*expected_count);
                let actual = decimal_text(*actual_count);
                expected.concat(" bytes were expected to be written, but only ").concat(
                    actual.as_str(),
                ).concat(" byte(s) were actually written.")
            },
            Error::Transport(failure) => failure.message(),
        }
    }
}

impl From<UartError> for Error {
    /// Converts a failure of the serial link into the driver's error, keeping
    /// every detail that the link reported.
    fn from(uart_error: UartError) -> (error: Self) {
        match uart_error {
            UartError::Io(err) => Error::Transport(TransportError::Io(err)),
            UartError::Gpio(gpio_err) => match gpio_err {
                GpioError::UnknownModel => Error::Transport(TransportError::UnknownModel),
                GpioError::PinNotAvailable(pin) => Error::Transport(
                    TransportError::PinNotAvailable(pin),
                ),
                GpioError::PermissionDenied(err_string) => Error::Transport(
                    TransportError::PermissionDenied(err_string),
                ),
                GpioError::Io(err) => Error::Transport(TransportError::Io(err)),
                GpioError::ThreadPanic => Error::Transport(TransportError::ThreadPanic),
                GpioError::PinUsed(pin) => Error::Transport(TransportError::PinUsed(pin)),
            },
            UartError::InvalidValue => Error::Transport(TransportError::InvalidValue),
        }
    }
}

impl vstd::std_specs::convert::FromSpecImpl<UartError> for Error {
    open spec fn obeys_from_spec() -> bool {
        true
    }

    /// The error that a failure of the link becomes: `Transport`, with the
    /// leaf of the link's taxonomy that the failure stands for.
    open spec fn from_spec(uart_error: UartError) -> Self {
        Error::Transport(flatten(uart_error))
    }
}

/// Two failures of the link that the driver reports as the same error are the
/// same leaf of the link's taxonomy: the conversion loses only the nesting.
pub proof fn lemma_flatten_keeps_every_leaf(first: UartError, second: UartError)
    requires
        flatten(first) == flatten(second),
    ensures
        first == second || (first is Io && second == UartError::Gpio(GpioError::Io(first->Io_0)))
            || (second is Io && first == UartError::Gpio(GpioError::Io(second->Io_0))),
{
}

/// Each digit is written as one character, from `0` to `9`.
pub proof fn lemma_digit_characters(value: nat)
    requires
        value < 10,
    ensures
        digit(value).len() == 1,
        digit(value)[0] == seq!['0', '1', '2', '3', '4', '5', '6', '7', '8', '9'][value as int],
{
    reveal_strlit("0");
    reveal_strlit("1");
    reveal_strlit("2");
    reveal_strlit("3");
    reveal_strlit("4");
    reveal_strlit("5");
    reveal_strlit("6");
    reveal_strlit("7");
    reveal_strlit("8");
    reveal_strlit("9");
}

/// A number is written without a leading zero, unless it is zero itself.
pub proof fn lemma_decimal_has_no_leading_zero(value: nat)
    ensures
        decimal(value).len() >= 1,
        value > 0 ==> decimal(value)[0] != '0',
    decreases value,
{
    if value < 10 {
        lemma_digit_characters(value);
    } else {
        lemma_decimal_has_no_leading_zero(value / 10);
        lemma_digit_characters(value % 10);
    }
}

} // verus!
