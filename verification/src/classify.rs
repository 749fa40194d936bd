//! Classification policy: the bare tag of a unified error, and the pure
//! mapping of every error to its remediation class. Callers implement
//! retry, logging and display policy on top of these without re-deriving
//! the taxonomy.

use vstd::prelude::*;

use crate::error::{Error, ProverError, StateError};

verus! {

/// The bare tag of a unified error, with every payload stripped. Structural
/// equality on the tag plus the payload is how a caller distinguishes "same
/// logical failure repeated" from "new failure"; no identity or timestamp
/// is embedded in an error value.
#[derive(Clone, Copy, Debug, PartialEq, Eq, Structural)]
pub enum ErrorTag {
    /// Tag of `Error::State`.
    State,
    /// Tag of `Error::Prover`.
    Prover,
    /// Tag of `Error::Store`.
    Store,
    /// Tag of `Error::Network`.
    Network,
    /// Tag of `Error::RuskURI`.
    RuskURI,
    /// Tag of `Error::RuskConn`.
    RuskConn,
    /// Tag of `Error::ProverConn`.
    ProverConn,
    /// Tag of `Error::Offline`.
    Offline,
    /// Tag of `Error::Unauthorized`.
    Unauthorized,
    /// Tag of `Error::IO`.
    IO,
    /// Tag of `Error::Json`.
    Json,
    /// Tag of `Error::Bytes`.
    Bytes,
    /// Tag of `Error::Base58`.
    Base58,
    /// Tag of `Error::Canon`.
    Canon,
    /// Tag of `Error::Rng`.
    Rng,
    /// Tag of `Error::Phoenix`.
    Phoenix,
    /// Tag of `Error::NotEnoughBalance`.
    NotEnoughBalance,
    /// Tag of `Error::AmountIsZero`.
    AmountIsZero,
    /// Tag of `Error::NoteCombinationProblem`.
    NoteCombinationProblem,
    /// Tag of `Error::NotEnoughGas`.
    NotEnoughGas,
    /// Tag of `Error::StakingNotAllowed`.
    StakingNotAllowed,
    /// Tag of `Error::AlreadyStaked`.
    AlreadyStaked,
    /// Tag of `Error::NotStaked`.
    NotStaked,
    /// Tag of `Error::NoReward`.
    NoReward,
    /// Tag of `Error::BadAddress`.
    BadAddress,
    /// Tag of `Error::AddressNotOwned`.
    AddressNotOwned,
    /// Tag of `Error::InvalidMnemonicPhrase`.
    InvalidMnemonicPhrase,
    /// Tag of `Error::NotDirectory`.
    NotDirectory,
    /// Tag of `Error::WalletFileCorrupted`.
    WalletFileCorrupted,
    /// Tag of `Error::UnknownFileVersion`.
    UnknownFileVersion,
    /// Tag of `Error::WalletFileNotExists`.
    WalletFileNotExists,
    /// Tag of `Error::WalletFileExists`.
    WalletFileExists,
    /// Tag of `Error::WalletFileMissing`.
    WalletFileMissing,
    /// Tag of `Error::InvalidPassword`.
    InvalidPassword,
    /// Tag of `Error::SocketsNotSupported`.
    SocketsNotSupported,
    /// Tag of `Error::StatusWalletConnected`.
    StatusWalletConnected,
}

/// The remediation class of a failure: what the caller can sensibly do
/// about it. Classes group by remedy, not by source.
#[derive(Clone, Copy, Debug, PartialEq, Eq, Structural)]
pub enum Remediation {
    /// Transient infrastructure failure; the caller may retry with backoff.
    Transient,
    /// Configuration problem; fatal for this invocation, a retry cannot fix
    /// it, the user must change a setting.
    Configuration,
    /// Data integrity failure; fatal and never to be silently swallowed or
    /// retried, since a retry cannot fix corrupted bytes.
    DataIntegrity,
    /// Violated business rule; expected, user-correctable, not a defect.
    Domain,
    /// The client was used out of its required sequence; a caller logic
    /// error, not an I/O failure.
    Precondition,
    /// Credential or randomness failure; externally rendered detail must
    /// not distinguish these beyond "invalid credential".
    SecuritySensitive,
}

/// The tag of a unified error.
pub open spec fn tag_of(e: Error) -> ErrorTag {
    match e {
        Error::State(_) => ErrorTag::State,
        Error::Prover(_) => ErrorTag::Prover,
        Error::Store(_) => ErrorTag::Store,
        Error::Network(_) => ErrorTag::Network,
        Error::RuskURI(_) => ErrorTag::RuskURI,
        Error::RuskConn(_) => ErrorTag::RuskConn,
        Error::ProverConn(_) => ErrorTag::ProverConn,
        Error::Offline => ErrorTag::Offline,
        Error::Unauthorized => ErrorTag::Unauthorized,
        Error::IO(_) => ErrorTag::IO,
        Error::Json(_) => ErrorTag::Json,
        Error::Bytes(_) => ErrorTag::Bytes,
        Error::Base58(_) => ErrorTag::Base58,
        Error::Canon(_) => ErrorTag::Canon,
        Error::Rng(_) => ErrorTag::Rng,
        Error::Phoenix(_) => ErrorTag::Phoenix,
        Error::NotEnoughBalance => ErrorTag::NotEnoughBalance,
        Error::AmountIsZero => ErrorTag::AmountIsZero,
        Error::NoteCombinationProblem => ErrorTag::NoteCombinationProblem,
        Error::NotEnoughGas => ErrorTag::NotEnoughGas,
        Error::StakingNotAllowed => ErrorTag::StakingNotAllowed,
        Error::AlreadyStaked => ErrorTag::AlreadyStaked,
        Error::NotStaked => ErrorTag::NotStaked,
        Error::NoReward => ErrorTag::NoReward,
        Error::BadAddress => ErrorTag::BadAddress,
        Error::AddressNotOwned => ErrorTag::AddressNotOwned,
        Error::InvalidMnemonicPhrase => ErrorTag::InvalidMnemonicPhrase,
        Error::NotDirectory => ErrorTag::NotDirectory,
        Error::WalletFileCorrupted => ErrorTag::WalletFileCorrupted,
        Error::UnknownFileVersion(_, _) => ErrorTag::UnknownFileVersion,
        Error::WalletFileNotExists => ErrorTag::WalletFileNotExists,
        Error::WalletFileExists => ErrorTag::WalletFileExists,
        Error::WalletFileMissing => ErrorTag::WalletFileMissing,
        Error::InvalidPassword => ErrorTag::InvalidPassword,
        Error::SocketsNotSupported(_) => ErrorTag::SocketsNotSupported,
        Error::StatusWalletConnected => ErrorTag::StatusWalletConnected,
    }
}

/// Remediation class of a state-client failure: a non-success status from
/// the remote service, a cache miss or a local I/O failure may pass with a
/// retry; broken encodings cannot.
pub open spec fn state_remediation_of(e: StateError) -> Remediation {
    match e {
        StateError::Rusk(_) => Remediation::Transient,
        StateError::Bytes(_) => Remediation::DataIntegrity,
        StateError::Canon(_) => Remediation::DataIntegrity,
        StateError::Cache(_) => Remediation::Transient,
        StateError::Io(_) => Remediation::Transient,
    }
}

/// Remediation class of a prover-client failure: a non-success status may
/// pass with a retry; broken encodings cannot; a rejected transaction is a
/// domain outcome the user must act on, not an infrastructure fault.
pub open spec fn prover_remediation_of(e: ProverError) -> Remediation {
    match e {
        ProverError::Rusk(_) => Remediation::Transient,
        ProverError::Bytes(_) => Remediation::DataIntegrity,
        ProverError::Canon(_) => Remediation::DataIntegrity,
        ProverError::Transaction(_) => Remediation::Domain,
    }
}

/// Remediation class of a unified error. Total and pure: the class depends
/// on the value alone, so classifying the same value twice always yields
/// the same class.
pub open spec fn remediation_of(e: Error) -> Remediation {
    match e {
        Error::State(inner) => state_remediation_of(inner),
        Error::Prover(inner) => prover_remediation_of(inner),
        Error::Store(_) => Remediation::DataIntegrity,
        Error::Network(_) => Remediation::Transient,
        Error::RuskURI(_) => Remediation::Configuration,
        Error::RuskConn(_) => Remediation::Transient,
        Error::ProverConn(_) => Remediation::Transient,
        Error::Offline => Remediation::Precondition,
        Error::Unauthorized => Remediation::Precondition,
        Error::IO(_) => Remediation::Transient,
        Error::Json(_) => Remediation::DataIntegrity,
        Error::Bytes(_) => Remediation::DataIntegrity,
        Error::Base58(_) => Remediation::DataIntegrity,
        Error::Canon(_) => Remediation::DataIntegrity,
        Error::Rng(_) => Remediation::SecuritySensitive,
        Error::Phoenix(_) => Remediation::DataIntegrity,
        Error::NotEnoughBalance => Remediation::Domain,
        Error::AmountIsZero => Remediation::Domain,
        Error::NoteCombinationProblem => Remediation::Domain,
        Error::NotEnoughGas => Remediation::Domain,
        Error::StakingNotAllowed => Remediation::Domain,
        Error::AlreadyStaked => Remediation::Domain,
        Error::NotStaked => Remediation::Domain,
        Error::NoReward => Remediation::Domain,
        Error::BadAddress => Remediation::Domain,
        Error::AddressNotOwned => Remediation::Domain,
        Error::InvalidMnemonicPhrase => Remediation::SecuritySensitive,
        Error::NotDirectory => Remediation::Configuration,
        Error::WalletFileCorrupted => Remediation::DataIntegrity,
        Error::UnknownFileVersion(_, _) => Remediation::DataIntegrity,
        Error::WalletFileNotExists => Remediation::Configuration,
        Error::WalletFileExists => Remediation::Configuration,
        Error::WalletFileMissing => Remediation::Configuration,
        Error::InvalidPassword => Remediation::SecuritySensitive,
        Error::SocketsNotSupported(_) => Remediation::Configuration,
        Error::StatusWalletConnected => Remediation::Precondition,
    }
}

impl Error {
    /// The bare tag of this error, with the payload stripped.
    pub fn tag(&self) -> (t: ErrorTag)
        ensures
            t == tag_of(*self),
    {
        match self {
            Error::State(_) => ErrorTag::State,
            Error::Prover(_) => ErrorTag::Prover,
            Error::Store(_) => ErrorTag::Store,
            Error::Network(_) => ErrorTag::Network,
            Error::RuskURI(_) => ErrorTag::RuskURI,
            Error::RuskConn(_) => ErrorTag::RuskConn,
            Error::ProverConn(_) => ErrorTag::ProverConn,
            Error::Offline => ErrorTag::Offline,
            Error::Unauthorized => ErrorTag::Unauthorized,
            Error::IO(_) => ErrorTag::IO,
            Error::Json(_) => ErrorTag::Json,
            Error::Bytes(_) => ErrorTag::Bytes,
            Error::Base58(_) => ErrorTag::Base58,
            Error::Canon(_) => ErrorTag::Canon,
            Error::Rng(_) => ErrorTag::Rng,
            Error::Phoenix(_) => ErrorTag::Phoenix,
            Error::NotEnoughBalance => ErrorTag::NotEnoughBalance,
            Error::AmountIsZero => ErrorTag::AmountIsZero,
            Error::NoteCombinationProblem => ErrorTag::NoteCombinationProblem,
            Error::NotEnoughGas => ErrorTag::NotEnoughGas,
            Error::StakingNotAllowed => ErrorTag::StakingNotAllowed,
            Error::AlreadyStaked => ErrorTag::AlreadyStaked,
            Error::NotStaked => ErrorTag::NotStaked,
            Error::NoReward => ErrorTag::NoReward,
            Error::BadAddress => ErrorTag::BadAddress,
            Error::AddressNotOwned => ErrorTag::AddressNotOwned,
            Error::InvalidMnemonicPhrase => ErrorTag::InvalidMnemonicPhrase,
            Error::NotDirectory => ErrorTag::NotDirectory,
            Error::WalletFileCorrupted => ErrorTag::WalletFileCorrupted,
            Error::UnknownFileVersion(_, _) => ErrorTag::UnknownFileVersion,
            Error::WalletFileNotExists => ErrorTag::WalletFileNotExists,
            Error::WalletFileExists => ErrorTag::WalletFileExists,
            Error::WalletFileMissing => ErrorTag::WalletFileMissing,
            Error::InvalidPassword => ErrorTag::InvalidPassword,
            Error::SocketsNotSupported(_) => ErrorTag::SocketsNotSupported,
            Error::StatusWalletConnected => ErrorTag::StatusWalletConnected,
        }
    }

    /// The remediation class of this error. Pure: two calls on equal values
    /// yield equal classes.
    pub fn remediation(&self) -> (r: Remediation)
        ensures
            r == remediation_of(*self),
    {
        match self {
            Error::State(inner) => inner.remediation(),
            Error::Prover(inner) => inner.remediation(),
            Error::Store(_) => Remediation::DataIntegrity,
            Error::Network(_) => Remediation::Transient,
            Error::RuskURI(_) => Remediation::Configuration,
            Error::RuskConn(_) => Remediation::Transient,
            Error::ProverConn(_) => Remediation::Transient,
            Error::Offline => Remediation::Precondition,
            Error::Unauthorized => Remediation::Precondition,
            Error::IO(_) => Remediation::Transient,
            Error::Json(_) => Remediation::DataIntegrity,
            Error::Bytes(_) => Remediation::DataIntegrity,
            Error::Base58(_) => Remediation::DataIntegrity,
            Error::Canon(_) => Remediation::DataIntegrity,
            Error::Rng(_) => Remediation::SecuritySensitive,
            Error::Phoenix(_) => Remediation::DataIntegrity,
            Error::NotEnoughBalance => Remediation::Domain,
            Error::AmountIsZero => Remediation::Domain,
            Error::NoteCombinationProblem => Remediation::Domain,
            Error::NotEnoughGas => Remediation::Domain,
            Error::StakingNotAllowed => Remediation::Domain,
            Error::AlreadyStaked => Remediation::Domain,
            Error::NotStaked => Remediation::Domain,
            Error::NoReward => Remediation::Domain,
            Error::BadAddress => Remediation::Domain,
            Error::AddressNotOwned => Remediation::Domain,
            Error::InvalidMnemonicPhrase => Remediation::SecuritySensitive,
            Error::NotDirectory => Remediation::Configuration,
            Error::WalletFileCorrupted => Remediation::DataIntegrity,
            Error::UnknownFileVersion(_, _) => Remediation::DataIntegrity,
            Error::WalletFileNotExists => Remediation::Configuration,
            Error::WalletFileExists => Remediation::Configuration,
            Error::WalletFileMissing => Remediation::Configuration,
            Error::InvalidPassword => Remediation::SecuritySensitive,
            Error::SocketsNotSupported(_) => Remediation::Configuration,
            Error::StatusWalletConnected => Remediation::Precondition,
        }
    }
}

impl StateError {
    /// The remediation class of this state-client failure.
    pub fn remediation(&self) -> (r: Remediation)
        ensures
            r == state_remediation_of(*self),
    {
        match self {
            StateError::Rusk(_) => Remediation::Transient,
            StateError::Bytes(_) => Remediation::DataIntegrity,
            StateError::Canon(_) => Remediation::DataIntegrity,
            StateError::Cache(_) => Remediation::Transient,
            StateError::Io(_) => Remediation::Transient,
        }
    }
}

impl ProverError {
    /// The remediation class of this prover-client failure.
    pub fn remediation(&self) -> (r: Remediation)
        ensures
            r == prover_remediation_of(*self),
    {
        match self {
            ProverError::Rusk(_) => Remediation::Transient,
            ProverError::Bytes(_) => Remediation::DataIntegrity,
            ProverError::Canon(_) => Remediation::DataIntegrity,
            ProverError::Transaction(_) => Remediation::Domain,
        }
    }
}

} // verus!
