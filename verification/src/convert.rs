//! The conversion layer: total, lossless, one-directional conversions from
//! every collaborator error union into the unified type, and from shared
//! payloads into the collaborator unions.
//!
//! Each conversion is a `From` impl whose meaning in contracts is pinned by
//! a named spec function, so callers can prove exactly which unified tag a
//! collaborator failure becomes. No conversion inspects payload content and
//! none can fail.

use vstd::prelude::*;

use crate::error::{
    BytesError, CanonError, CoreError, Error, IoInfo, ProverError, StateError, StatusInfo,
    StoreError,
};

verus! {

/// What converting a state-client error yields: the unified `State` tag
/// wrapping the error whole, never any other subsystem's tag.
pub open spec fn unified_of_state(e: StateError) -> Error {
    Error::State(e)
}

/// What converting a prover-client error yields: the unified `Prover` tag
/// wrapping the error whole, never any other subsystem's tag.
pub open spec fn unified_of_prover(e: ProverError) -> Error {
    Error::Prover(e)
}

/// What converting a store error yields: the unified `Store` tag wrapping
/// the error whole, never any other subsystem's tag.
pub open spec fn unified_of_store(e: StoreError) -> Error {
    Error::Store(e)
}

/// What converting a wallet-core failure yields. Forwarded collaborator
/// errors keep their collaborator's tag; rule violations detected by the
/// core become the matching domain tag, dropping only the staking key
/// identity and stake value that the domain tags do not carry.
pub open spec fn unified_of_core(e: CoreError) -> Error {
    match e {
        CoreError::Store(err) => Error::Store(err),
        CoreError::State(err) => Error::State(err),
        CoreError::Prover(err) => Error::Prover(err),
        CoreError::Canon(err) => Error::Canon(err),
        CoreError::Rng(code) => Error::Rng(code),
        CoreError::Bytes(err) => Error::Bytes(err),
        CoreError::Phoenix(detail) => Error::Phoenix(detail),
        CoreError::NotEnoughBalance => Error::NotEnoughBalance,
        CoreError::NoteCombinationProblem => Error::NoteCombinationProblem,
        CoreError::AlreadyStaked { key: _, stake: _ } => Error::AlreadyStaked,
        CoreError::NotStaked { key: _, stake: _ } => Error::NotStaked,
        CoreError::NoReward { key: _, stake: _ } => Error::NoReward,
    }
}

impl From<StateError> for Error {
    fn from(e: StateError) -> (r: Self) {
        Error::State(e)
    }
}

impl vstd::std_specs::convert::FromSpecImpl<StateError> for Error {
    open spec fn obeys_from_spec() -> bool {
        true
    }

    open spec fn from_spec(e: StateError) -> Error {
        unified_of_state(e)
    }
}

impl From<ProverError> for Error {
    fn from(e: ProverError) -> (r: Self) {
        Error::Prover(e)
    }
}

impl vstd::std_specs::convert::FromSpecImpl<ProverError> for Error {
    open spec fn obeys_from_spec() -> bool {
        true
    }

    open spec fn from_spec(e: ProverError) -> Error {
        unified_of_prover(e)
    }
}

impl From<StoreError> for Error {
    fn from(e: StoreError) -> (r: Self) {
        Error::Store(e)
    }
}

impl vstd::std_specs::convert::FromSpecImpl<StoreError> for Error {
    open spec fn obeys_from_spec() -> bool {
        true
    }

    open spec fn from_spec(e: StoreError) -> Error {
        unified_of_store(e)
    }
}

impl From<CoreError> for Error {
    fn from(e: CoreError) -> (r: Self) {
        match e {
            CoreError::Store(err) => Error::Store(err),
            CoreError::State(err) => Error::State(err),
            CoreError::Prover(err) => Error::Prover(err),
            CoreError::Canon(err) => Error::Canon(err),
            CoreError::Rng(code) => Error::Rng(code),
            CoreError::Bytes(err) => Error::Bytes(err),
            CoreError::Phoenix(detail) => Error::Phoenix(detail),
            CoreError::NotEnoughBalance => Error::NotEnoughBalance,
            CoreError::NoteCombinationProblem => Error::NoteCombinationProblem,
            CoreError::AlreadyStaked { key: _, stake: _ } => Error::AlreadyStaked,
            CoreError::NotStaked { key: _, stake: _ } => Error::NotStaked,
            CoreError::NoReward { key: _, stake: _ } => Error::NoReward,
        }
    }
}

impl vstd::std_specs::convert::FromSpecImpl<CoreError> for Error {
    open spec fn obeys_from_spec() -> bool {
        true
    }

    open spec fn from_spec(e: CoreError) -> Error {
        unified_of_core(e)
    }
}

impl From<BytesError> for Error {
    fn from(e: BytesError) -> (r: Self) {
        Error::Bytes(e)
    }
}

impl vstd::std_specs::convert::FromSpecImpl<BytesError> for Error {
    open spec fn obeys_from_spec() -> bool {
        true
    }

    open spec fn from_spec(e: BytesError) -> Error {
        Error::Bytes(e)
    }
}

impl From<CanonError> for StateError {
    fn from(e: CanonError) -> (r: Self) {
        StateError::Canon(e)
    }
}

impl vstd::std_specs::convert::FromSpecImpl<CanonError> for StateError {
    open spec fn obeys_from_spec() -> bool {
        true
    }

    open spec fn from_spec(e: CanonError) -> StateError {
        StateError::Canon(e)
    }
}

impl From<BytesError> for StateError {
    fn from(e: BytesError) -> (r: Self) {
        StateError::Bytes(e)
    }
}

impl vstd::std_specs::convert::FromSpecImpl<BytesError> for StateError {
    open spec fn obeys_from_spec() -> bool {
        true
    }

    open spec fn from_spec(e: BytesError) -> StateError {
        StateError::Bytes(e)
    }
}

impl From<StatusInfo> for StateError {
    fn from(s: StatusInfo) -> (r: Self) {
        StateError::Rusk(s)
    }
}

impl vstd::std_specs::convert::FromSpecImpl<StatusInfo> for StateError {
    open spec fn obeys_from_spec() -> bool {
        true
    }

    open spec fn from_spec(s: StatusInfo) -> StateError {
        StateError::Rusk(s)
    }
}

impl From<IoInfo> for StateError {
    fn from(e: IoInfo) -> (r: Self) {
        StateError::Io(e)
    }
}

impl vstd::std_specs::convert::FromSpecImpl<IoInfo> for StateError {
    open spec fn obeys_from_spec() -> bool {
        true
    }

    open spec fn from_spec(e: IoInfo) -> StateError {
        StateError::Io(e)
    }
}

impl From<BytesError> for ProverError {
    fn from(e: BytesError) -> (r: Self) {
        ProverError::Bytes(e)
    }
}

impl vstd::std_specs::convert::FromSpecImpl<BytesError> for ProverError {
    open spec fn obeys_from_spec() -> bool {
        true
    }

    open spec fn from_spec(e: BytesError) -> ProverError {
        ProverError::Bytes(e)
    }
}

impl From<StatusInfo> for ProverError {
    fn from(s: StatusInfo) -> (r: Self) {
        ProverError::Rusk(s)
    }
}

impl vstd::std_specs::convert::FromSpecImpl<StatusInfo> for ProverError {
    open spec fn obeys_from_spec() -> bool {
        true
    }

    open spec fn from_spec(s: StatusInfo) -> ProverError {
        ProverError::Rusk(s)
    }
}

} // verus!
