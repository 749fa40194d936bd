//! Tests that drive real collaborator error values through the boundary:
//! each conversion must land on its unified tag and carry the payload the
//! outside value reported.

use std::num::NonZeroU32;

use wallet_errors::boundary::{
    from_base58_error, from_invalid_uri, from_io_error, from_json_error, from_rng_error,
    from_transport_error, prover_conn_failure, prover_from_status, rusk_conn_failure,
    state_from_io, state_from_status,
};
use wallet_errors::classify::{ErrorTag, Remediation};
use wallet_errors::error::{Error, ProverError, StateError};

#[test]
fn json_boundary() {
    let outside = serde_json::from_str::<serde_json::Value>("{").unwrap_err();
    let e = from_json_error(outside);
    assert_eq!(e.tag(), ErrorTag::Json);
    let m = e.message();
    assert!(m.starts_with("json serialization error: end of input"));
    assert!(m.contains("at line 1, column 1"));
    assert_eq!(e.remediation(), Remediation::DataIntegrity);
}

#[test]
fn base58_boundary() {
    let outside = bs58::decode("0").into_vec().unwrap_err();
    let e = from_base58_error(outside);
    assert_eq!(e.tag(), ErrorTag::Base58);
    assert_eq!(e.message(), "base58 error: invalid character at index 0");
}

#[test]
fn rng_boundary() {
    let outside = rand_core::Error::from(NonZeroU32::new(42).unwrap());
    let e = from_rng_error(outside);
    assert_eq!(e.tag(), ErrorTag::Rng);
    assert_eq!(e.message(), "random number generator error, code 42");
    assert_eq!(e.remediation(), Remediation::SecuritySensitive);
}

#[test]
fn status_boundary() {
    let se = state_from_status(tonic::Status::new(tonic::Code::NotFound, "no entry"));
    assert!(matches!(se, StateError::Rusk(_)));
    let e = Error::from(se);
    assert_eq!(e.tag(), ErrorTag::State);
    assert_eq!(e.message(), "state client error: rusk returned status 5: no entry");

    let pe = prover_from_status(tonic::Status::new(tonic::Code::Internal, "proof failed"));
    assert!(matches!(pe, ProverError::Rusk(_)));
    let e = Error::from(pe);
    assert_eq!(e.tag(), ErrorTag::Prover);
    assert_eq!(e.message(), "prover client error: rusk returned status 13: proof failed");
}

#[test]
fn transport_boundary() {
    let bad = || tonic::transport::Endpoint::from_shared("not a uri".to_string()).unwrap_err();
    let network = from_transport_error(bad());
    assert_eq!(network.tag(), ErrorTag::Network);
    assert_eq!(network.remediation(), Remediation::Transient);
    assert!(network.message().starts_with("network error: "));
    assert!(network.message().len() > "network error: ".len());

    let conn = rusk_conn_failure(bad());
    assert_eq!(conn.tag(), ErrorTag::RuskConn);
    let prover = prover_conn_failure(bad());
    assert_eq!(prover.tag(), ErrorTag::ProverConn);
}

#[test]
fn uri_boundary() {
    let outside = "http://[::1".parse::<http::Uri>().unwrap_err();
    let e = from_invalid_uri(outside);
    assert_eq!(e.tag(), ErrorTag::RuskURI);
    assert_eq!(e.remediation(), Remediation::Configuration);
    assert!(e.message().starts_with("rusk uri failure: "));
    assert!(e.message().len() > "rusk uri failure: ".len());
}

#[test]
fn io_boundary() {
    let outside = std::io::Error::new(std::io::ErrorKind::NotFound, "wallet.dat gone");
    let e = from_io_error(outside);
    assert_eq!(e.tag(), ErrorTag::IO);
    assert_eq!(e.message(), "filesystem error: wallet.dat gone");

    let again = std::io::Error::new(std::io::ErrorKind::NotFound, "cache gone");
    let se = state_from_io(again);
    assert!(matches!(se, StateError::Io(_)));
    assert_eq!(Error::from(se).message(), "state client error: an i/o error occurred: cache gone");
}

#[test]
fn mnemonic_boundary() {
    let outside = bip39::Mnemonic::parse("abandon xyzzy").unwrap_err();
    let e = Error::from(outside);
    assert_eq!(e.tag(), ErrorTag::InvalidMnemonicPhrase);
    assert_eq!(e.message(), "invalid credential");
}

#[test]
fn block_mode_boundary() {
    let corrupted = Error::from(block_modes::InvalidKeyIvLength);
    assert_eq!(corrupted.tag(), ErrorTag::WalletFileCorrupted);
    let password = Error::from(block_modes::BlockModeError);
    assert_eq!(password.tag(), ErrorTag::InvalidPassword);
    assert_ne!(corrupted.tag(), password.tag());
}
