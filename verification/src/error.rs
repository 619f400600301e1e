use vstd::prelude::*;

verus! {

/// Every failure this module can report. Each entry point returns a distinct
/// kind for each way it can reject an invocation; nothing is retried and
/// nothing is partially applied.
#[derive(Clone, Copy, Debug, PartialEq, Eq, Structural)]
pub enum HookError {
    /// Fee arithmetic overflowed or underflowed; no state was touched.
    ArithmeticOverflow,
    /// The source or destination account does not reference the given mint.
    MintMismatch,
    /// The source account's recorded owner differs from the authorizing owner.
    OwnerMismatch,
    /// The authorizing owner did not sign the instruction.
    MissingRequiredSignature,
    /// The supplied resolution-table address does not match the address
    /// derived deterministically from the mint.
    ResolutionTableMismatch,
    /// The supplied authority address does not match the address derived
    /// deterministically from the fixed authority seed.
    AuthorityMismatch,
    /// No valid derived address exists for the given seeds.
    AddressDerivationFailed,
    /// The raw instruction bytes do not carry a recognized instruction tag.
    InvalidInstructionData,
    /// The resolution table's storage address is already funded or occupied;
    /// the table is created exactly once per mint and never overwritten.
    TableAlreadyOccupied,
    /// A resolution-table entry carries a seed configuration that does not
    /// fit the fixed-width entry encoding.
    InvalidSeedConfiguration,
    /// An address value does not consist of exactly 32 bytes.
    InvalidAddressLength,
}

} // verus!
