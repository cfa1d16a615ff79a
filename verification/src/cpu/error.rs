//! The engine's errors.

use vstd::prelude::*;
use vstd::string::*;

verus! {

/// Why a ROM was not loaded.
#[derive(Copy, Clone, Debug, PartialEq, Eq, Structural)]
pub enum RomError {
    /// The ROM does not fit in memory behind the program start.
    RomTooLarge,
}

/// What stops the engine.
#[derive(Copy, Clone, Debug, PartialEq, Eq, Structural)]
pub enum Error {
    /// A snapshot could not be written.
    SaveStateError,
    /// A snapshot does not describe a machine.
    LoadStateError,
    /// The program counter left the part of memory that holds instructions.
    ProgramCounterOverflow,
    /// A call with 16 return addresses on the stack.
    StackOverflow,
    /// A return with no return address on the stack.
    StackUnderflow,
    /// An instruction reached behind the last byte of memory.
    MemoryOutOfBounds,
    /// A key number above 15.
    InvalidKey,
    /// A flag register above 7.
    InvalidFlagRegister,
}

impl RomError {
    /// The text shown for this error.
    pub open spec fn spec_message(self) -> Seq<char> {
        "Invalid ROM!"@
    }

    /// The text shown for this error.
    pub fn message(&self) -> (s: String)
        ensures
            s@ == self.spec_message(),
    {
        String::from_str("Invalid ROM!")
    }
}

impl Error {
    /// The text shown for this error.
    pub open spec fn spec_message(self) -> Seq<char> {
        match self {
            Error::SaveStateError => "Save state error: Failed to serialize state!"@,
            Error::LoadStateError => "Load state error: Failed to deserialize state!"@,
            Error::ProgramCounterOverflow => "Program counter overflow!"@,
            Error::StackOverflow => "Stack overflow occurred! The ROM might be invalid or different quirk settings required."@,
            Error::StackUnderflow => "Stack underflow occurred! The ROM might be invalid or different quirk settings required."@,
            Error::MemoryOutOfBounds => "Memory access out of bounds!"@,
            Error::InvalidKey => "Invalid key!"@,
            Error::InvalidFlagRegister => "Invalid flag register!"@,
        }
    }

    /// The text shown for this error.
    pub fn message(&self) -> (s: String)
        ensures
            s@ == self.spec_message(),
    {
        match self {
            Error::SaveStateError => String::from_str(
                "Save state error: Failed to serialize state!",
            ),
            Error::LoadStateError => String::from_str(
                "Load state error: Failed to deserialize state!",
            ),
            Error::ProgramCounterOverflow => String::from_str("Program counter overflow!"),
            Error::StackOverflow => String::from_str(
                "Stack overflow occurred! The ROM might be invalid or different quirk settings required.",
            ),
            Error::StackUnderflow => String::from_str(
                "Stack underflow occurred! The ROM might be invalid or different quirk settings required.",
            ),
            Error::MemoryOutOfBounds => String::from_str("Memory access out of bounds!"),
            Error::InvalidKey => String::from_str("Invalid key!"),
            Error::InvalidFlagRegister => String::from_str("Invalid flag register!"),
        }
    }
}

} // verus!
