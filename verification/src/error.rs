//! The unified error taxonomy: scoped collaborator error unions and the
//! single closed union returned by every public wallet-client operation.
//!
//! Every payload is statically known plain data owned by the error value
//! itself; no variant borrows from a collaborator's internal buffers, so
//! values can be moved freely across task boundaries and outlive the
//! collaborator that produced them.

use vstd::prelude::*;

verus! {

/// Category of a JSON serialization failure, as the JSON reader reports it.
#[derive(Clone, Copy, Debug, PartialEq, Eq, Structural)]
pub enum JsonCategory {
    /// The underlying reader or writer failed.
    Io,
    /// The input was not syntactically valid JSON.
    Syntax,
    /// The input was valid JSON but of the wrong shape.
    Data,
    /// The input ended while a value was still open.
    Eof,
}

/// Position and category of a JSON serialization failure.
#[derive(Clone, Copy, Debug, PartialEq, Eq, Structural)]
pub struct JsonInfo {
    /// Failure category.
    pub category: JsonCategory,
    /// One-based line of the failure, or zero when no position applies.
    pub line: usize,
    /// One-based column of the failure, or zero when no position applies.
    pub column: usize,
}

/// A fixed-size byte (de)serialization failure.
#[derive(Clone, Copy, Debug, PartialEq, Eq, Structural)]
pub enum BytesError {
    /// The bytes decoded, but not to a valid value.
    InvalidData,
    /// The input length does not match the expected length.
    BadLength {
        /// Length of the input that was handed in.
        found: usize,
        /// Length the decoder expected.
        expected: usize,
    },
    /// A character in the input is not valid for the encoding.
    InvalidChar {
        /// The offending character.
        ch: char,
        /// Its position in the input.
        index: usize,
    },
}

/// A base-58 decoding failure.
#[derive(Clone, Copy, Debug, PartialEq, Eq, Structural)]
pub enum Base58Error {
    /// The output buffer was too small for the decoded value.
    BufferTooSmall,
    /// A character of the input is outside the base-58 alphabet.
    InvalidCharacter {
        /// The offending character.
        character: char,
        /// Its position in the input.
        index: usize,
    },
    /// A character of the input is not ASCII.
    NonAsciiCharacter {
        /// Its position in the input.
        index: usize,
    },
    /// A failure mode the decoder added after this taxonomy was fixed.
    Unrecognized,
}

/// A canonical-encoding failure.
#[derive(Clone, Copy, Debug, PartialEq, Eq, Structural)]
pub enum CanonError {
    /// A value was requested that the backing store does not hold.
    NotFound,
    /// The bytes are not a valid canonical encoding.
    InvalidEncoding,
}

/// The non-success status a remote Rusk request came back with.
#[derive(Clone, Debug)]
pub struct StatusInfo {
    /// Numeric status code of the response.
    pub code: u32,
    /// Human-readable message the service attached.
    pub message: String,
}

/// Kind of a local I/O failure, reduced to the cases the wallet acts on.
#[derive(Clone, Copy, Debug, PartialEq, Eq, Structural)]
pub enum IoKind {
    /// The file or directory does not exist.
    NotFound,
    /// The caller lacks permission.
    PermissionDenied,
    /// The file or directory already exists.
    AlreadyExists,
    /// Any other I/O failure.
    Other,
}

/// A local I/O failure: its kind and a rendered diagnostic.
#[derive(Clone, Debug)]
pub struct IoInfo {
    /// Reduced failure kind.
    pub kind: IoKind,
    /// Rendered diagnostic text of the underlying failure.
    pub detail: String,
}

/// Errors local to the blockchain state query collaborator.
#[derive(Clone, Debug)]
pub enum StateError {
    /// The state service answered a request with a non-success status.
    Rusk(StatusInfo),
    /// A byte (de)serialization failure while handling state data.
    Bytes(BytesError),
    /// A canonical-encoding failure while handling state data.
    Canon(CanonError),
    /// The local note cache could not be read or written.
    Cache(String),
    /// A local I/O failure while handling state data.
    Io(IoInfo),
}

/// Errors local to the transaction-proving collaborator.
#[derive(Clone, Debug)]
pub enum ProverError {
    /// The proving service answered a request with a non-success status.
    Rusk(StatusInfo),
    /// A byte (de)serialization failure while handling proof data.
    Bytes(BytesError),
    /// A canonical-encoding failure while handling proof data.
    Canon(CanonError),
    /// The verifier rejected the transaction; the reason is an opaque
    /// diagnostic string, never matched on content.
    Transaction(String),
}

/// Errors local to the encrypted store collaborator.
///
/// The store reports its failures exclusively through the generic I/O and
/// serialization channel, so this union deliberately has no populated
/// failure mode of its own rather than speculative ones.
#[derive(Clone, Copy, Debug)]
pub enum StoreError {
    /// Stand-in variant, present only because the verifier requires every
    /// union to hold at least one variant; no operation constructs it.
    Never,
}

/// The failure surface of the wallet-core collaborator: the layer that
/// drives the three clients to build transactions. Each value either
/// forwards one collaborator's own error or reports a rule violation the
/// core itself detected.
#[derive(Clone, Debug)]
pub enum CoreError {
    /// Forwarded store failure.
    Store(StoreError),
    /// Forwarded state-client failure.
    State(StateError),
    /// Forwarded prover-client failure.
    Prover(ProverError),
    /// Canonical-encoding failure inside the core.
    Canon(CanonError),
    /// The random generator failed; the code identifies the failure when
    /// the generator supplied one.
    Rng(Option<u32>),
    /// Byte (de)serialization failure inside the core.
    Bytes(BytesError),
    /// Transaction-model violation; the detail is an opaque diagnostic.
    Phoenix(String),
    /// The balance does not cover the requested amount.
    NotEnoughBalance,
    /// No combination of owned notes can pay the requested amount within
    /// the input limit of one transaction.
    NoteCombinationProblem,
    /// A stake already exists for the key.
    AlreadyStaked {
        /// Identity of the staking key.
        key: u64,
        /// Value of the existing stake.
        stake: u64,
    },
    /// No stake exists for the key.
    NotStaked {
        /// Identity of the staking key.
        key: u64,
        /// Value the caller believed was staked.
        stake: u64,
    },
    /// No reward is available for the key.
    NoReward {
        /// Identity of the staking key.
        key: u64,
        /// Value of the stake the reward was asked for.
        stake: u64,
    },
}

/// The unified error type: the one closed union every public wallet-client
/// operation returns. Constructing a value never fails; the value owns all
/// its payload data.
#[derive(Clone, Debug)]
pub enum Error {
    /// A state-client failure, forwarded whole.
    State(StateError),
    /// A prover-client failure, forwarded whole.
    Prover(ProverError),
    /// A store failure, forwarded whole.
    Store(StoreError),
    /// Network failure during an in-flight call; payload is the rendered
    /// transport diagnostic.
    Network(String),
    /// The configured Rusk endpoint is not a valid URI; payload describes
    /// the malformed endpoint.
    RuskURI(String),
    /// Connecting to the Rusk node failed; payload is the rendered
    /// transport diagnostic.
    RuskConn(String),
    /// Connecting to the prover cluster failed; payload is the rendered
    /// transport diagnostic.
    ProverConn(String),
    /// The command needs a live connection and the client is offline.
    Offline,
    /// The caller has not authenticated for this wallet.
    Unauthorized,
    /// A local filesystem failure.
    IO(IoInfo),
    /// A JSON serialization failure.
    Json(JsonInfo),
    /// A byte (de)serialization failure.
    Bytes(BytesError),
    /// A base-58 decoding failure.
    Base58(Base58Error),
    /// A canonical-encoding failure.
    Canon(CanonError),
    /// The random generator failed; the code identifies the failure when
    /// the generator supplied one.
    Rng(Option<u32>),
    /// Transaction-model violation; the detail is an opaque diagnostic.
    Phoenix(String),
    /// The balance does not cover the requested amount.
    NotEnoughBalance,
    /// The amount to transfer or stake is zero.
    AmountIsZero,
    /// No combination of owned notes can pay the requested amount within
    /// the input limit of one transaction.
    NoteCombinationProblem,
    /// The gas limit does not cover the transaction.
    NotEnoughGas,
    /// Staking is only allowed against a local Rusk instance.
    StakingNotAllowed,
    /// A stake already exists for the key.
    AlreadyStaked,
    /// No stake exists for the key.
    NotStaked,
    /// No reward is available for the key.
    NoReward,
    /// The address is not a valid wallet address.
    BadAddress,
    /// The address does not belong to this wallet.
    AddressNotOwned,
    /// The recovery phrase is not a valid mnemonic.
    InvalidMnemonicPhrase,
    /// The path provided is not a directory.
    NotDirectory,
    /// The wallet file content is not valid.
    WalletFileCorrupted,
    /// The wallet file header carries a version this client does not
    /// recognize: the version found, then the version expected.
    UnknownFileVersion(u8, u8),
    /// The wallet file does not exist on disk.
    WalletFileNotExists,
    /// A wallet file with this name already exists.
    WalletFileExists,
    /// The wallet file is missing.
    WalletFileMissing,
    /// The password does not open the wallet file.
    InvalidPassword,
    /// Socket connections are not available on this platform; payload
    /// names the platform detail.
    SocketsNotSupported(String),
    /// A status callback must be set before connecting.
    StatusWalletConnected,
}

} // verus!
