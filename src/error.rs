use vstd::prelude::*;

verus! {

/// Why two update messages could not be composed.
#[derive(Debug, Clone, Copy, PartialEq, Eq, Structural)]
pub enum AggregationFailure {
    /// No message was given.
    Empty,
    /// The second message does not start from the first one's post state id.
    StateIdMismatch,
    /// The second message does not start from the first one's post height.
    HeightMismatch,
    /// One context is empty and the other is a trusting-period context.
    ContextKindMismatch,
    /// The two trusting-period contexts disagree on the trusting period.
    TrustingPeriodMismatch,
    /// The two trusting-period contexts disagree on the clock drift.
    ClockDriftMismatch,
}

/// Errors of the library.
#[derive(Debug, Clone, Copy, PartialEq, Eq, Structural)]
pub enum Error {
    /// A timestamp past `MAX_UNIX_TIMESTAMP_NANOS`.
    TimestampOutOfRange,
    /// Update messages that do not compose.
    MessageAggregationFailed(AggregationFailure),
    /// A message header with an unsupported version.
    InvalidMessageHeader,
    /// Bytes that are not the expected ABI encoding, or an unknown type tag.
    InvalidAbi,
    /// A message of another type than the one asked for.
    UnexpectedMessageType { expected: u16, actual: u16 },
    /// A message that breaks an invariant of its variant.
    InvalidMessage,
    /// An attestation step failed or its evidence does not match.
    AttestationFailed,
    /// A key or report already exists and overwriting was not asked for.
    AlreadyInitialized,
    /// A directory or file that the command needs is missing.
    NotFound,
    /// A client type that is registered already.
    AlreadyRegistered,
    /// A state or header of another client type than expected.
    UnexpectedClientType,
    /// The client is frozen.
    ClientFrozen,
    /// No consensus state is stored at the client's latest height.
    ConsensusStateNotFound,
    /// The latest consensus state lies in the future of the host.
    InvalidConsensusStateTimestamp,
    /// The latest consensus state is older than the trusting period.
    HeaderNotWithinTrustPeriod,
    /// The store could not be opened or committed.
    StoreError,
    /// A light-client command came without an enclave key.
    MissingEnclaveKey,
    /// A light-client command failed; its writes were rolled back.
    CommandFailed,
    /// A malformed argument.
    InputValidation,
}

} // verus!
