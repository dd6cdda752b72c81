use vstd::prelude::*;

verus! {

/// The ways an operation of this library can fail.
#[derive(Clone, Copy, Debug, PartialEq, Eq, Structural)]
pub enum MplCoreError {
    /// Permission denied: no approving vote, or a rejecting one.
    InvalidAuthority,
    /// The parent collection is missing or is not the one the asset names.
    InvalidCollection,
    /// The digest recomputed from a compression proof differs from the stored one.
    IncorrectAssetHash,
    /// Account bytes that do not decode.
    DeserializationError,
    /// Arithmetic on balances or sizes that does not fit.
    NumericalOverflowError,
    /// A core check attributed to neither the asset nor its collection.
    IncorrectAccount,
    /// A value too long for its length prefix.
    SerializationError,
}

} // verus!
