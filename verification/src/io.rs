//! The operating system's error type, carried opaquely through the library.
use vstd::prelude::*;

verus! {

/// `std::io::Error`, declared so that errors of the operating system can
/// be carried through the library; nothing is seen inside it.
#[verifier::external_type_specification]
#[verifier::external_body]
pub struct ExIoError(std::io::Error);

/// Calls `ToString::to_string` on a `std::io::Error` (its `Display` text)
/// and hands back the text's bytes. Nothing is stated of the text: for an
/// operating-system error it is the system's description, which varies
/// between machines.
#[verifier::external_body]
pub(crate) fn io_error_text(error: &std::io::Error) -> Vec<u8> {
    error.to_string().into_bytes()
}

} // verus!
