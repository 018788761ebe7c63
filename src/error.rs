use vstd::prelude::*;

use crate::terminal::ModeError;

verus! {

/// Relies on `std::io::Error` as an opaque value: the library only carries it
/// to the caller.
#[verifier::external_type_specification]
#[verifier::external_body]
pub struct ExIoError(std::io::Error);

/// A fatal condition, handed up to the top of the program, which reports it
/// and exits with a failure status.
#[derive(Debug)]
pub enum HectoError {
    /// Raw mode could not be taken.
    Mode(ModeError),
    /// The terminal device could not be queried or configured.
    TerminalMode(std::io::Error),
    /// The input stream could not be read.
    StreamRead(std::io::Error),
}

/// Turns a failed read of the input stream into the fatal error that ends the program.
pub fn die(e: std::io::Error) -> (r: HectoError)
    ensures
        r == HectoError::StreamRead(e),
{
    HectoError::StreamRead(e)
}

} // verus!
