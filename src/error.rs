//! Error kinds of the loader core.

use vstd::prelude::*;

verus! {

/// A failure reported by the firmware, with its status code where there is one.
#[derive(Debug, Clone, PartialEq, Eq)]
pub enum EfiError {
    /// An image was started and control came back to the loader.
    BootReturned,
    /// A reset was requested and the firmware returned instead of resetting.
    ResetReturned,
    BootError(u64),
    NoEfiVariable(String),
    WriteEfiVariable(u64, String),
    GetEfiVariable(u64, String),
    OpenProtocol(u64),
}

#[derive(Debug, Clone, PartialEq, Eq)]
pub enum B2Error {
    Todo,
    Conversion,
    ReadNVRAM,
    WriteNVRAM,
    /// An index (a multiple-choice selection) lies outside its list.
    OutOfRange,
    Format,
    Unknown,
    NotFile,
    PlatformError(EfiError),
    /// Boot options and selections differ in number.
    LengthMismatch,
    /// A selection's variant does not match its option's kind.
    KindMismatch,
    /// The terminal is too narrow for the line editor.
    TerminalTooNarrow,
    /// The boot target is recognised but cannot be started on this loader.
    Unavailable,
    /// The firmware does not offer rebooting into its setup.
    FirmwareSetupUnsupported,
    /// The password does not match the configured hash.
    WrongPassword,
}

} // verus!
