//! Tests of the taxonomy itself: conversion totality and attribution,
//! lifecycle non-collapse, classification, domain-rule checks, and the
//! rendered diagnostics.

use wallet_errors::boundary::state_from_cache;
use wallet_errors::classify::{ErrorTag, Remediation};
use wallet_errors::domain::{check_file_version, check_gas, check_transfer};
use wallet_errors::error::{
    Base58Error, BytesError, CanonError, CoreError, Error, IoInfo, IoKind, JsonCategory, JsonInfo,
    ProverError, StateError, StatusInfo, StoreError,
};
use wallet_errors::render::decimal;

fn status(code: u32, message: &str) -> StatusInfo {
    StatusInfo { code, message: message.to_string() }
}

#[test]
fn state_conversion_attributes_to_state() {
    let variants = vec![
        StateError::Rusk(status(5, "not found")),
        StateError::Bytes(BytesError::InvalidData),
        StateError::Canon(CanonError::NotFound),
        StateError::Cache("cache gone".to_string()),
        StateError::Io(IoInfo { kind: IoKind::Other, detail: "disk".to_string() }),
    ];
    for v in variants {
        let e = Error::from(v);
        assert_eq!(e.tag(), ErrorTag::State);
        assert_ne!(e.tag(), ErrorTag::Prover);
        assert_ne!(e.tag(), ErrorTag::Store);
    }
}

#[test]
fn prover_conversion_attributes_to_prover() {
    let variants = vec![
        ProverError::Rusk(status(13, "internal")),
        ProverError::Bytes(BytesError::InvalidData),
        ProverError::Canon(CanonError::InvalidEncoding),
        ProverError::Transaction("double spend".to_string()),
    ];
    for v in variants {
        let e = Error::from(v);
        assert_eq!(e.tag(), ErrorTag::Prover);
        assert_ne!(e.tag(), ErrorTag::State);
        assert_ne!(e.tag(), ErrorTag::Store);
    }
}

#[test]
fn store_conversion_and_rendering() {
    let e = Error::from(StoreError::Never);
    assert_eq!(e.tag(), ErrorTag::Store);
    assert_ne!(e.tag(), ErrorTag::State);
    assert_ne!(e.tag(), ErrorTag::Prover);
    assert_eq!(e.message(), "An error occurred in the store");
}

#[test]
fn bytes_conversion_attributes_to_bytes() {
    let e = Error::from(BytesError::BadLength { found: 3, expected: 32 });
    assert_eq!(e.tag(), ErrorTag::Bytes);
    assert_eq!(e.message(), "bytes encoding error: bad length 3, expected 32");
    let state = Error::from(StateError::from(BytesError::InvalidData));
    assert_eq!(state.tag(), ErrorTag::State);
    let prover = Error::from(ProverError::from(BytesError::InvalidData));
    assert_eq!(prover.tag(), ErrorTag::Prover);
}

#[test]
fn cache_conversion_keeps_diagnostic() {
    let se = state_from_cache("page 4 unreadable".to_string());
    assert!(matches!(se, StateError::Cache(_)));
    let e = Error::from(se);
    assert_eq!(e.tag(), ErrorTag::State);
    assert_eq!(
        e.message(),
        "state client error: failed to read or write the cache: page 4 unreadable"
    );
}

#[test]
fn core_conversion_is_total() {
    let cases: Vec<(CoreError, ErrorTag)> = vec![
        (CoreError::State(StateError::Canon(CanonError::NotFound)), ErrorTag::State),
        (CoreError::Prover(ProverError::Transaction("no".to_string())), ErrorTag::Prover),
        (CoreError::Canon(CanonError::InvalidEncoding), ErrorTag::Canon),
        (CoreError::Rng(Some(7)), ErrorTag::Rng),
        (CoreError::Rng(None), ErrorTag::Rng),
        (CoreError::Bytes(BytesError::BadLength { found: 3, expected: 32 }), ErrorTag::Bytes),
        (CoreError::Phoenix("bad note".to_string()), ErrorTag::Phoenix),
        (CoreError::NotEnoughBalance, ErrorTag::NotEnoughBalance),
        (CoreError::NoteCombinationProblem, ErrorTag::NoteCombinationProblem),
        (CoreError::AlreadyStaked { key: 1, stake: 500 }, ErrorTag::AlreadyStaked),
        (CoreError::NotStaked { key: 2, stake: 0 }, ErrorTag::NotStaked),
        (CoreError::NoReward { key: 3, stake: 100 }, ErrorTag::NoReward),
    ];
    for (core, tag) in cases {
        assert_eq!(Error::from(core).tag(), tag);
    }
}

#[test]
fn core_passthrough_keeps_payload() {
    let core = CoreError::State(StateError::Cache("page 4 unreadable".to_string()));
    let e = Error::from(core);
    assert_eq!(e.message(), "state client error: failed to read or write the cache: page 4 unreadable");
}

#[test]
fn lifecycle_non_collapse() {
    // each outcome from its nearest collaborator-level cause
    let missing = Error::WalletFileMissing;
    let exists = Error::WalletFileExists;
    let corrupted = Error::from(block_modes::InvalidKeyIvLength);
    let skew = check_file_version(2, 3).unwrap_err();
    let password = Error::from(block_modes::BlockModeError);
    let tags = vec![missing.tag(), exists.tag(), corrupted.tag(), skew.tag(), password.tag()];
    for i in 0..tags.len() {
        for j in 0..tags.len() {
            if i != j {
                assert_ne!(tags[i], tags[j]);
            }
        }
    }
    assert_eq!(corrupted.tag(), ErrorTag::WalletFileCorrupted);
    assert_eq!(skew.tag(), ErrorTag::UnknownFileVersion);
    assert_eq!(password.tag(), ErrorTag::InvalidPassword);
}

#[test]
fn classification_is_idempotent() {
    let errors = vec![
        Error::Network("reset".to_string()),
        Error::Json(JsonInfo { category: JsonCategory::Eof, line: 1, column: 2 }),
        Error::NotEnoughBalance,
        Error::Offline,
        Error::InvalidPassword,
        Error::SocketsNotSupported("no af_unix".to_string()),
    ];
    for e in errors {
        assert_eq!(e.remediation(), e.remediation());
        assert_eq!(e.clone().remediation(), e.remediation());
    }
}

#[test]
fn remediation_groups() {
    assert_eq!(Error::Network("x".to_string()).remediation(), Remediation::Transient);
    assert_eq!(Error::RuskConn("x".to_string()).remediation(), Remediation::Transient);
    assert_eq!(Error::ProverConn("x".to_string()).remediation(), Remediation::Transient);
    assert_eq!(Error::RuskURI("x".to_string()).remediation(), Remediation::Configuration);
    assert_eq!(Error::SocketsNotSupported("x".to_string()).remediation(), Remediation::Configuration);
    assert_eq!(
        Error::Json(JsonInfo { category: JsonCategory::Data, line: 0, column: 0 }).remediation(),
        Remediation::DataIntegrity
    );
    assert_eq!(Error::Bytes(BytesError::InvalidData).remediation(), Remediation::DataIntegrity);
    assert_eq!(Error::Base58(Base58Error::BufferTooSmall).remediation(), Remediation::DataIntegrity);
    assert_eq!(Error::Canon(CanonError::NotFound).remediation(), Remediation::DataIntegrity);
    assert_eq!(Error::WalletFileCorrupted.remediation(), Remediation::DataIntegrity);
    assert_eq!(Error::UnknownFileVersion(2, 3).remediation(), Remediation::DataIntegrity);
    assert_eq!(Error::NotEnoughBalance.remediation(), Remediation::Domain);
    assert_eq!(Error::AmountIsZero.remediation(), Remediation::Domain);
    assert_eq!(Error::NoteCombinationProblem.remediation(), Remediation::Domain);
    assert_eq!(Error::NotEnoughGas.remediation(), Remediation::Domain);
    assert_eq!(Error::StakingNotAllowed.remediation(), Remediation::Domain);
    assert_eq!(Error::BadAddress.remediation(), Remediation::Domain);
    assert_eq!(Error::AddressNotOwned.remediation(), Remediation::Domain);
    assert_eq!(Error::Unauthorized.remediation(), Remediation::Precondition);
    assert_eq!(Error::Offline.remediation(), Remediation::Precondition);
    assert_eq!(Error::StatusWalletConnected.remediation(), Remediation::Precondition);
    assert_eq!(Error::InvalidPassword.remediation(), Remediation::SecuritySensitive);
    assert_eq!(Error::InvalidMnemonicPhrase.remediation(), Remediation::SecuritySensitive);
    assert_eq!(Error::Rng(None).remediation(), Remediation::SecuritySensitive);
}

#[test]
fn subsystem_remediation() {
    let transient = Error::from(StateError::Rusk(status(14, "unavailable")));
    assert_eq!(transient.remediation(), Remediation::Transient);
    let broken = Error::from(StateError::Bytes(BytesError::InvalidData));
    assert_eq!(broken.remediation(), Remediation::DataIntegrity);
    let rejected = Error::from(ProverError::Transaction("refused".to_string()));
    assert_eq!(rejected.remediation(), Remediation::Domain);
}

#[test]
fn insufficient_balance_scenario() {
    // a successful network fetch may precede the check; the rule violation
    // must still surface as the domain tag, not an I/O or network tag
    let r = check_transfer(5, 9);
    let e = r.unwrap_err();
    assert_eq!(e.tag(), ErrorTag::NotEnoughBalance);
    assert_ne!(e.tag(), ErrorTag::Network);
    assert_ne!(e.tag(), ErrorTag::IO);
    assert_eq!(e.remediation(), Remediation::Domain);
    assert!(check_transfer(9, 9).is_ok());
    assert!(check_transfer(9, 5).is_ok());
}

#[test]
fn zero_amount_scenario() {
    let e = check_transfer(1_000_000, 0).unwrap_err();
    assert_eq!(e.tag(), ErrorTag::AmountIsZero);
    assert_eq!(e.message(), "amount to transfer or stake cannot be zero");
}

#[test]
fn gas_check() {
    let e = check_gas(10, 21).unwrap_err();
    assert_eq!(e.tag(), ErrorTag::NotEnoughGas);
    assert!(check_gas(21, 21).is_ok());
}

#[test]
fn version_skew_scenario() {
    let e = check_file_version(2, 3).unwrap_err();
    assert_eq!(e.tag(), ErrorTag::UnknownFileVersion);
    assert!(matches!(e, Error::UnknownFileVersion(2, 3)));
    let m = e.message();
    assert_eq!(m, "file version 2 not recognized, expected version 3");
    let found_at = m.find('2').unwrap();
    let expected_at = m.find('3').unwrap();
    assert!(found_at < expected_at);
    assert!(check_file_version(3, 3).is_ok());
}

#[test]
fn version_message_is_lossless() {
    let m = Error::UnknownFileVersion(3, 5).message();
    assert!(m.contains('3'));
    assert!(m.contains('5'));
    assert_eq!(m, "file version 3 not recognized, expected version 5");
    let wide = Error::UnknownFileVersion(0, 255).message();
    assert_eq!(wide, "file version 0 not recognized, expected version 255");
}

#[test]
fn credential_messages_are_indistinguishable() {
    assert_eq!(Error::InvalidPassword.message(), Error::InvalidMnemonicPhrase.message());
    assert_eq!(Error::InvalidPassword.message(), "invalid credential");
}

#[test]
fn decimal_rendering() {
    assert_eq!(decimal(0), "0");
    assert_eq!(decimal(7), "7");
    assert_eq!(decimal(10), "10");
    assert_eq!(decimal(255), "255");
    assert_eq!(decimal(1009), "1009");
    assert_eq!(decimal(u64::MAX), "18446744073709551615");
}

#[test]
fn payload_messages() {
    let bad_len = Error::Bytes(BytesError::BadLength { found: 3, expected: 32 });
    assert_eq!(bad_len.message(), "bytes encoding error: bad length 3, expected 32");
    let non_ascii = Error::Base58(Base58Error::NonAsciiCharacter { index: 7 });
    assert_eq!(non_ascii.message(), "base58 error: non-ascii character at index 7");
    let json = Error::Json(JsonInfo { category: JsonCategory::Syntax, line: 4, column: 11 });
    assert_eq!(json.message(), "json serialization error: syntax failure at line 4, column 11");
    assert_eq!(
        Error::Rng(Some(40)).message(),
        "random number generator error, code 40"
    );
    assert_eq!(Error::Rng(None).message(), "random number generator error");
    let rusk = Error::from(StateError::Rusk(status(5, "no such contract")));
    assert_eq!(rusk.message(), "state client error: rusk returned status 5: no such contract");
    let tx = Error::from(ProverError::Transaction("inputs already spent".to_string()));
    assert_eq!(tx.message(), "prover client error: transaction failed: inputs already spent");
    let sockets = Error::SocketsNotSupported("windows target".to_string());
    assert_eq!(
        sockets.message(),
        "socket connections are not available on this platform: windows target"
    );
}

#[test]
fn fixed_messages() {
    assert_eq!(Error::Offline.message(), "command not available in offline mode");
    assert_eq!(Error::Unauthorized.message(), "unauthorized to access this wallet");
    assert_eq!(Error::NotEnoughBalance.message(), "not enough balance to perform transaction");
    assert_eq!(Error::WalletFileMissing.message(), "wallet file is missing");
    assert_eq!(Error::WalletFileNotExists.message(), "wallet file not found on disk");
    assert_eq!(Error::WalletFileExists.message(), "a wallet file with this name already exists");
    assert_eq!(Error::WalletFileCorrupted.message(), "wallet file content is not valid");
}
