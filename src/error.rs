use vstd::prelude::*;

verus! {

/// The standard library's I/O error, carried through unchanged when a
/// terminal operation fails.
#[verifier::external_type_specification]
#[verifier::external_body]
pub struct ExIoError(std::io::Error);

/// Why an editing session ended without a finished line.
#[derive(Debug)]
pub enum ReadlineError {
    /// A terminal query, write or mode change failed.
    IOError(std::io::Error),
    /// The user pressed Ctrl+C.
    Interrupted,
    /// The input stream closed before the line was completed.
    EoF,
    /// An event-source failure of no other kind.
    Unknown,
}

} // verus!
