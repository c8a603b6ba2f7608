//! Errors of building and validating a configuration.
use vstd::prelude::*;

verus! {

/// Why a raw field value could not be read.
#[derive(Clone, Copy, Debug, PartialEq, Eq, Structural)]
pub enum ParseError {
    /// Not an unsigned 64-bit decimal integer.
    NotAnInteger,
    /// Not of the form `since_last:<num>`, with `<num>` an unsigned 64-bit integer.
    MalformedSnapshotPolicy,
    /// Not a number with an optional byte unit.
    MalformedByteSize,
    /// A byte size that does not fit in 64 bits.
    ByteSizeTooLarge,
    /// Text that is not valid Unicode.
    NotUnicode,
}

/// The fields of a configuration, in declaration order.
#[derive(Clone, Copy, Debug, PartialEq, Eq, Structural)]
pub enum Field {
    ClusterName,
    ElectionTimeoutMin,
    ElectionTimeoutMax,
    HeartbeatInterval,
    InstallSnapshotTimeout,
    MaxPayloadEntries,
    ReplicationLagThreshold,
    SnapshotPolicy,
    SnapshotMaxChunkSize,
    MaxAppliedLogToKeep,
}

/// Why a configuration could not be built or is not valid.
#[derive(Clone, Copy, Debug, PartialEq, Eq, Structural)]
pub enum ConfigError {
    /// `election_timeout_min` is not below `election_timeout_max`.
    InvalidElectionTimeoutMinMax,
    /// `election_timeout_min` is not above `heartbeat_interval`.
    ElectionTimeoutLessThanHeartBeatInterval,
    /// `max_payload_entries` is zero.
    MaxPayloadEntriesTooSmall,
    /// The raw value of a field could not be read.
    InvalidValue { field: Field, error: ParseError },
    /// An override token that is not of the form `--<flag>=<value>` or
    /// `--<flag>` for a flag of some field.
    UnknownArgument,
    /// A last override token `--<flag>` with no value after it.
    MissingValue { field: Field },
    /// A field given more than once among the overrides.
    DuplicateArgument { field: Field },
}

} // verus!
