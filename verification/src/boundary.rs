//! The collaborator boundary: trusted views of the outside error types and
//! the conversions that carry each of them into the taxonomy.
//!
//! Each outside error value is reduced, by one trusted adapter per outside
//! type, to the plain payload the taxonomy owns; everything after that
//! reduction is verified. The adapters copy data out of the outside value
//! and decide nothing. Each reduction is a function of the outside value
//! alone, so it carries a name (`json_payload_of` and the like): the
//! conversions pin their payload to that name, and a conversion that
//! invented a payload would not verify.

use vstd::prelude::*;

use crate::error::{
    Base58Error, Error, IoInfo, IoKind, JsonCategory, JsonInfo, ProverError, StateError,
    StatusInfo,
};

verus! {

/// The payload a JSON failure reduces to: its category, line and column.
pub uninterp spec fn json_payload_of(e: serde_json::Error) -> JsonInfo;

/// Relies on serde_json::Error::classify, line and column: the failure
/// category, and the one-based position or zero when no position applies.
/// All three are functions of the error value alone.
#[verifier::external_body]
fn json_info_of(e: &serde_json::Error) -> (r: JsonInfo)
    ensures
        r == json_payload_of(*e),
{
    let category = match e.classify() {
        serde_json::error::Category::Io => JsonCategory::Io,
        serde_json::error::Category::Syntax => JsonCategory::Syntax,
        serde_json::error::Category::Data => JsonCategory::Data,
        serde_json::error::Category::Eof => JsonCategory::Eof,
    };
    JsonInfo { category, line: e.line(), column: e.column() }
}

/// The payload a base-58 decoding failure reduces to.
pub uninterp spec fn base58_payload_of(e: bs58::decode::Error) -> Base58Error;

/// Relies on bs58::decode::Error: its variants name the failure and carry
/// the offending character and byte index; the union is open-ended, so any
/// variant added after this taxonomy was fixed is carried as unrecognized.
#[verifier::external_body]
fn base58_error_of(e: &bs58::decode::Error) -> (r: Base58Error)
    ensures
        r == base58_payload_of(*e),
{
    match e {
        bs58::decode::Error::BufferTooSmall => Base58Error::BufferTooSmall,
        bs58::decode::Error::InvalidCharacter { character, index } => {
            Base58Error::InvalidCharacter { character: *character, index: *index }
        },
        bs58::decode::Error::NonAsciiCharacter { index } => {
            Base58Error::NonAsciiCharacter { index: *index }
        },
        _ => Base58Error::Unrecognized,
    }
}

/// The code a random-generator failure reduces to, when the generator
/// supplied one.
pub uninterp spec fn rng_payload_of(e: rand_core::Error) -> Option<u32>;

/// Relies on rand_core::Error::code: the raw error code, a function of the
/// error value alone, when the generator supplied one; the code is nonzero
/// by construction.
#[verifier::external_body]
fn rng_code_of(e: &rand_core::Error) -> (r: Option<u32>)
    ensures
        r == rng_payload_of(*e),
        r matches Some(code) ==> code >= 1,
{
    match e.code() {
        Some(code) => Some(code.get()),
        None => None,
    }
}

/// The payload a non-success Rusk status reduces to: its code and message.
pub uninterp spec fn status_payload_of(s: tonic::Status) -> StatusInfo;

/// Relies on tonic::Status::code and tonic::Status::message: the gRPC
/// status code, one of the seventeen values zero through sixteen, and the
/// message the service attached. Both are functions of the status value
/// alone.
#[verifier::external_body]
fn status_info_of(s: &tonic::Status) -> (r: StatusInfo)
    ensures
        r == status_payload_of(*s),
        r.code <= 16,
{
    StatusInfo { code: s.code() as u32, message: s.message().to_owned() }
}

/// The diagnostic text a transport failure renders to.
pub uninterp spec fn transport_text_of(e: tonic::transport::Error) -> Seq<char>;

/// Relies on the Display rendering of tonic::transport::Error, a function
/// of the error value alone, for the diagnostic text of a transport
/// failure.
#[verifier::external_body]
fn transport_detail_of(e: &tonic::transport::Error) -> (r: String)
    ensures
        r@ == transport_text_of(*e),
{
    format!("{}", e)
}

/// The diagnostic text a malformed-endpoint failure renders to.
pub uninterp spec fn uri_text_of(e: http::uri::InvalidUri) -> Seq<char>;

/// Relies on the Display rendering of http::uri::InvalidUri, a function of
/// the error value alone, for the description of the malformed endpoint.
#[verifier::external_body]
fn uri_detail_of(e: &http::uri::InvalidUri) -> (r: String)
    ensures
        r@ == uri_text_of(*e),
{
    format!("{}", e)
}

/// The kind a local I/O failure reduces to.
pub uninterp spec fn io_kind_of(e: std::io::Error) -> IoKind;

/// Relies on std::io::Error::kind, a function of the error value alone,
/// for the failure kind, reduced to the cases the wallet acts on. The
/// detail is the Display rendering, captured verbatim; for an OS-backed
/// error that text comes from the system's message table and may depend on
/// the machine's locale, so nothing is claimed of it.
#[verifier::external_body]
fn io_info_of(e: &std::io::Error) -> (r: IoInfo)
    ensures
        r.kind == io_kind_of(*e),
{
    let kind = match e.kind() {
        std::io::ErrorKind::NotFound => IoKind::NotFound,
        std::io::ErrorKind::PermissionDenied => IoKind::PermissionDenied,
        std::io::ErrorKind::AlreadyExists => IoKind::AlreadyExists,
        _ => IoKind::Other,
    };
    IoInfo { kind, detail: format!("{}", e) }
}

/// Carries a JSON serialization failure into the unified type: always the
/// `Json` tag, with exactly the failure's category and position as payload.
pub fn from_json_error(e: serde_json::Error) -> (r: Error)
    ensures
        r == Error::Json(json_payload_of(e)),
{
    Error::Json(json_info_of(&e))
}

/// Carries a base-58 decoding failure into the unified type: always the
/// `Base58` tag, with exactly the failure's reduction as payload.
pub fn from_base58_error(e: bs58::decode::Error) -> (r: Error)
    ensures
        r == Error::Base58(base58_payload_of(e)),
{
    Error::Base58(base58_error_of(&e))
}

/// Carries a random-generator failure into the unified type: always the
/// `Rng` tag, with exactly the generator's code when it supplied one. Any
/// cryptographic operation in progress must abort on this tag rather than
/// continue with weak randomness.
pub fn from_rng_error(e: rand_core::Error) -> (r: Error)
    ensures
        r == Error::Rng(rng_payload_of(e)),
        rng_payload_of(e) matches Some(c) ==> c >= 1,
{
    Error::Rng(rng_code_of(&e))
}

/// Carries a non-success status of the state service into the state-client
/// union: always its `Rusk` tag, with exactly the status's code and
/// message, the code at most sixteen.
pub fn state_from_status(s: tonic::Status) -> (r: StateError)
    ensures
        r == StateError::Rusk(status_payload_of(s)),
        status_payload_of(s).code <= 16,
{
    StateError::Rusk(status_info_of(&s))
}

/// Carries a non-success status of the proving service into the
/// prover-client union: always its `Rusk` tag, with exactly the status's
/// code and message, the code at most sixteen.
pub fn prover_from_status(s: tonic::Status) -> (r: ProverError)
    ensures
        r == ProverError::Rusk(status_payload_of(s)),
        status_payload_of(s).code <= 16,
{
    ProverError::Rusk(status_info_of(&s))
}

/// Carries a transport failure of an in-flight call into the unified type:
/// always the `Network` tag, with exactly the transport's diagnostic text.
pub fn from_transport_error(e: tonic::transport::Error) -> (r: Error)
    ensures
        r matches Error::Network(d) && d@ == transport_text_of(e),
{
    Error::Network(transport_detail_of(&e))
}

/// Carries a failure to connect to the Rusk node into the unified type:
/// always the `RuskConn` tag with the transport's diagnostic text,
/// distinguishing a failed connect from a failed in-flight call.
pub fn rusk_conn_failure(e: tonic::transport::Error) -> (r: Error)
    ensures
        r matches Error::RuskConn(d) && d@ == transport_text_of(e),
{
    Error::RuskConn(transport_detail_of(&e))
}

/// Carries a failure to connect to the prover cluster into the unified
/// type: always the `ProverConn` tag with the transport's diagnostic text.
pub fn prover_conn_failure(e: tonic::transport::Error) -> (r: Error)
    ensures
        r matches Error::ProverConn(d) && d@ == transport_text_of(e),
{
    Error::ProverConn(transport_detail_of(&e))
}

/// Carries a malformed-endpoint failure into the unified type: always the
/// `RuskURI` tag with exactly the failure's description.
pub fn from_invalid_uri(e: http::uri::InvalidUri) -> (r: Error)
    ensures
        r matches Error::RuskURI(d) && d@ == uri_text_of(e),
{
    Error::RuskURI(uri_detail_of(&e))
}

/// Carries a local I/O failure into the unified type: always the `IO` tag
/// with exactly the failure's kind; the detail text is carried as captured.
pub fn from_io_error(e: std::io::Error) -> (r: Error)
    ensures
        r matches Error::IO(i) && i.kind == io_kind_of(e),
{
    Error::IO(io_info_of(&e))
}

/// Carries a local I/O failure met while handling state data into the
/// state-client union: always its `Io` tag with exactly the failure's
/// kind; the detail text is carried as captured.
pub fn state_from_io(e: std::io::Error) -> (r: StateError)
    ensures
        r matches StateError::Io(i) && i.kind == io_kind_of(e),
{
    StateError::Io(io_info_of(&e))
}

/// Carries a failure of the note cache's persistence layer into the
/// state-client union: always its `Cache` tag, keeping the diagnostic the
/// persistence layer rendered. The persistence layer's own error type is
/// not among this crate's dependencies, so its failure arrives already
/// rendered to text.
pub fn state_from_cache(detail: String) -> (r: StateError)
    ensures
        r == StateError::Cache(detail),
{
    StateError::Cache(detail)
}

impl From<block_modes::InvalidKeyIvLength> for Error {
    /// A key or initialization vector of the wrong length while opening the
    /// wallet file means the file's layout is not what this client wrote:
    /// the file is corrupted, not the password wrong.
    fn from(_e: block_modes::InvalidKeyIvLength) -> (r: Self) {
        Error::WalletFileCorrupted
    }
}

impl vstd::std_specs::convert::FromSpecImpl<block_modes::InvalidKeyIvLength> for Error {
    open spec fn obeys_from_spec() -> bool {
        true
    }

    open spec fn from_spec(e: block_modes::InvalidKeyIvLength) -> Error {
        Error::WalletFileCorrupted
    }
}

impl From<block_modes::BlockModeError> for Error {
    /// A block-mode failure while decrypting the wallet file means the key
    /// derived from the password did not decrypt it: the password is wrong.
    fn from(_e: block_modes::BlockModeError) -> (r: Self) {
        Error::InvalidPassword
    }
}

impl vstd::std_specs::convert::FromSpecImpl<block_modes::BlockModeError> for Error {
    open spec fn obeys_from_spec() -> bool {
        true
    }

    open spec fn from_spec(e: block_modes::BlockModeError) -> Error {
        Error::InvalidPassword
    }
}

impl From<bip39::Error> for Error {
    /// Any failure to parse a recovery phrase is reported as one invalid
    /// mnemonic, without detail that could narrow a guess.
    fn from(_e: bip39::Error) -> (r: Self) {
        Error::InvalidMnemonicPhrase
    }
}

impl vstd::std_specs::convert::FromSpecImpl<bip39::Error> for Error {
    open spec fn obeys_from_spec() -> bool {
        true
    }

    open spec fn from_spec(e: bip39::Error) -> Error {
        Error::InvalidMnemonicPhrase
    }
}

} // verus!
