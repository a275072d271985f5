use vstd::prelude::*;

verus! {

/// Why an operation on the card ended without success.
#[derive(Debug, Clone, Copy, PartialEq, Eq, Structural)]
pub enum SdCardError {
    /// The card did not go through the identification sequence.
    InitFailed,
    /// The card refused to send its CSD register, or the register has a
    /// layout other than version 2.
    ReadCsdFailed,
    /// The transport failed while a data block was received.
    ReadDataFailed,
    /// The card reported a CRC error for a written block.
    CrcError,
    /// The card reported a write error for a written block.
    WriteError,
    /// The card answered a written block with a status outside the known set.
    Unknown,
    /// A wait on the card ran past its bound.
    Timeout,
}

} // verus!
