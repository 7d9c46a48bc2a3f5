//! Errors of the instruction-sysvar reader.
use vstd::prelude::*;

verus! {

/// Errors reported to the caller of the sysvar reader.
#[derive(Debug, Clone, Copy, PartialEq, Eq, Structural)]
pub enum ProgramError {
    /// An argument, such as a resolved instruction index, is out of range.
    InvalidArgument,
    /// An instruction record in the sysvar data is malformed.
    InvalidInstructionData,
    /// The account data is too short for the layout it should hold.
    InvalidAccountData,
    /// The account is not the instructions sysvar.
    UnsupportedSysvar,
}

/// Errors of the index-level reads inside the sysvar data.
#[derive(Debug, Clone, Copy, PartialEq, Eq, Structural)]
pub enum SanitizeError {
    /// An index is not below the number of entries it indexes.
    IndexOutOfBounds,
    /// A value read from the data lies outside its allowed range.
    ValueOutOfBounds,
    /// A field points outside the data, or the data is too short to hold it.
    InvalidValue,
}

} // verus!
