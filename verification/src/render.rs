//! Rendering of error values to diagnostic text. Every variant renders to
//! a message fixed by a spec function, and a payload that the message must
//! reproduce appears in it verbatim — except the two credential failures,
//! which deliberately render to one identical message so that the text
//! cannot serve as an oracle for which credential check failed. The
//! random-generator failure, though security-sensitive too, deliberately
//! keeps its numeric code: the code names a generator fault and holds no
//! credential information, so it opens no credential oracle.

use vstd::prelude::*;

use crate::error::{
    Base58Error, BytesError, CanonError, Error, JsonCategory, JsonInfo, ProverError, StateError,
    StatusInfo,
};

verus! {

/// The decimal digit character for `d`, which must be below ten.
pub open spec fn digit_char(d: nat) -> char {
    if d == 0 {
        '0'
    } else if d == 1 {
        '1'
    } else if d == 2 {
        '2'
    } else if d == 3 {
        '3'
    } else if d == 4 {
        '4'
    } else if d == 5 {
        '5'
    } else if d == 6 {
        '6'
    } else if d == 7 {
        '7'
    } else if d == 8 {
        '8'
    } else {
        '9'
    }
}

/// The decimal rendering of `n`, most significant digit first, with no
/// leading zero except for zero itself.
pub open spec fn dec_of(n: nat) -> Seq<char>
    decreases n,
{
    if n < 10 {
        seq![digit_char(n)]
    } else {
        dec_of(n / 10).push(digit_char(n % 10))
    }
}

/// The one-character string for the decimal digit `d`.
fn digit_str(d: u64) -> (r: &'static str)
    requires
        d < 10,
    ensures
        r@ == seq![digit_char(d as nat)],
{
    proof {
        reveal_strlit("0");
        reveal_strlit("1");
        reveal_strlit("2");
        reveal_strlit("3");
        reveal_strlit("4");
        reveal_strlit("5");
        reveal_strlit("6");
        reveal_strlit("7");
        reveal_strlit("8");
        reveal_strlit("9");
    }
    match d {
        0 => "0",
        1 => "1",
        2 => "2",
        3 => "3",
        4 => "4",
        5 => "5",
        6 => "6",
        7 => "7",
        8 => "8",
        _ => "9",
    }
}

/// Renders `n` in decimal.
pub fn decimal(n: u64) -> (s: String)
    ensures
        s@ == dec_of(n as nat),
    decreases n,
{
    if n < 10 {
        let s = digit_str(n).to_owned();
        assert(s@ =~= dec_of(n as nat));
        s
    } else {
        let mut s = decimal(n / 10);
        let d: u64 = n % 10;
        s.append(digit_str(d));
        assert(s@ =~= dec_of(n as nat));
        s
    }
}

/// The word naming a JSON failure category.
pub open spec fn json_category_word(c: JsonCategory) -> Seq<char> {
    match c {
        JsonCategory::Io => "i/o"@,
        JsonCategory::Syntax => "syntax"@,
        JsonCategory::Data => "data"@,
        JsonCategory::Eof => "end of input"@,
    }
}

/// The diagnostic text of a JSON failure: its category and position.
pub open spec fn json_msg_of(j: JsonInfo) -> Seq<char> {
    json_category_word(j.category) + " failure at line "@ + dec_of(j.line as nat) + ", column "@
        + dec_of(j.column as nat)
}

/// The diagnostic text of a byte (de)serialization failure.
pub open spec fn bytes_msg_of(b: BytesError) -> Seq<char> {
    match b {
        BytesError::InvalidData => "invalid data"@,
        BytesError::BadLength { found, expected } => "bad length "@ + dec_of(found as nat)
            + ", expected "@ + dec_of(expected as nat),
        BytesError::InvalidChar { ch: _, index } => "invalid character at index "@ + dec_of(
            index as nat,
        ),
    }
}

/// The diagnostic text of a base-58 decoding failure.
pub open spec fn base58_msg_of(b: Base58Error) -> Seq<char> {
    match b {
        Base58Error::BufferTooSmall => "buffer too small"@,
        Base58Error::InvalidCharacter { character: _, index } => "invalid character at index "@
            + dec_of(index as nat),
        Base58Error::NonAsciiCharacter { index } => "non-ascii character at index "@ + dec_of(
            index as nat,
        ),
        Base58Error::Unrecognized => "unrecognized decoding failure"@,
    }
}

/// The diagnostic text of a canonical-encoding failure.
pub open spec fn canon_msg_of(c: CanonError) -> Seq<char> {
    match c {
        CanonError::NotFound => "not found"@,
        CanonError::InvalidEncoding => "invalid encoding"@,
    }
}

/// The diagnostic text of a non-success Rusk status: its code and message.
pub open spec fn status_msg_of(s: StatusInfo) -> Seq<char> {
    "rusk returned status "@ + dec_of(s.code as nat) + ": "@ + s.message@
}

/// The diagnostic text of a state-client failure.
pub open spec fn state_msg_of(e: StateError) -> Seq<char> {
    match e {
        StateError::Rusk(s) => status_msg_of(s),
        StateError::Bytes(b) => "bytes encoding error: "@ + bytes_msg_of(b),
        StateError::Canon(c) => "canonical error: "@ + canon_msg_of(c),
        StateError::Cache(d) => "failed to read or write the cache: "@ + d@,
        StateError::Io(i) => "an i/o error occurred: "@ + i.detail@,
    }
}

/// The diagnostic text of a prover-client failure.
pub open spec fn prover_msg_of(e: ProverError) -> Seq<char> {
    match e {
        ProverError::Rusk(s) => status_msg_of(s),
        ProverError::Bytes(b) => "bytes encoding error: "@ + bytes_msg_of(b),
        ProverError::Canon(c) => "canonical error: "@ + canon_msg_of(c),
        ProverError::Transaction(r) => "transaction failed: "@ + r@,
    }
}

/// The diagnostic text of a unified error. Payload-free variants render to
/// fixed text; payloads are reproduced verbatim. The two credential
/// failures render identically on purpose.
pub open spec fn msg_of(e: Error) -> Seq<char> {
    match e {
        Error::State(s) => "state client error: "@ + state_msg_of(s),
        Error::Prover(p) => "prover client error: "@ + prover_msg_of(p),
        Error::Store(_) => "An error occurred in the store"@,
        Error::Network(d) => "network error: "@ + d@,
        Error::RuskURI(d) => "rusk uri failure: "@ + d@,
        Error::RuskConn(d) => "rusk connection failure: "@ + d@,
        Error::ProverConn(d) => "prover cluster connection failure: "@ + d@,
        Error::Offline => "command not available in offline mode"@,
        Error::Unauthorized => "unauthorized to access this wallet"@,
        Error::IO(i) => "filesystem error: "@ + i.detail@,
        Error::Json(j) => "json serialization error: "@ + json_msg_of(j),
        Error::Bytes(b) => "bytes encoding error: "@ + bytes_msg_of(b),
        Error::Base58(b) => "base58 error: "@ + base58_msg_of(b),
        Error::Canon(c) => "canonical error: "@ + canon_msg_of(c),
        Error::Rng(code) => match code {
            Some(c) => "random number generator error, code "@ + dec_of(c as nat),
            None => "random number generator error"@,
        },
        Error::Phoenix(d) => "transaction model error: "@ + d@,
        Error::NotEnoughBalance => "not enough balance to perform transaction"@,
        Error::AmountIsZero => "amount to transfer or stake cannot be zero"@,
        Error::NoteCombinationProblem => (
        "note combination for the given value is impossible given the maximum amount of inputs in a transaction"@
        ),
        Error::NotEnoughGas => "not enough gas to perform this transaction"@,
        Error::StakingNotAllowed => (
        "staking is only allowed when running your own local rusk instance"@
        ),
        Error::AlreadyStaked => "a stake already exists for this key"@,
        Error::NotStaked => "a stake does not exist for this key"@,
        Error::NoReward => "no reward available for this key"@,
        Error::BadAddress => "invalid address"@,
        Error::AddressNotOwned => "address does not belong to this wallet"@,
        Error::InvalidMnemonicPhrase => "invalid credential"@,
        Error::NotDirectory => "path provided is not a directory"@,
        Error::WalletFileCorrupted => "wallet file content is not valid"@,
        Error::UnknownFileVersion(found, expected) => "file version "@ + dec_of(found as nat)
            + " not recognized, expected version "@ + dec_of(expected as nat),
        Error::WalletFileNotExists => "wallet file not found on disk"@,
        Error::WalletFileExists => "a wallet file with this name already exists"@,
        Error::WalletFileMissing => "wallet file is missing"@,
        Error::InvalidPassword => "invalid credential"@,
        Error::SocketsNotSupported(d) => (
        "socket connections are not available on this platform: "@ + d@
        ),
        Error::StatusWalletConnected => "a status callback must be set before connecting"@,
    }
}

impl StateError {
    /// Renders this failure to its diagnostic text.
    pub fn message(&self) -> (r: String)
        ensures
            r@ == state_msg_of(*self),
    {
        match self {
            StateError::Rusk(s) => {
                let mut m = "rusk returned status ".to_owned();
                m.append(decimal(s.code as u64).as_str());
                m.append(": ");
                m.append(s.message.as_str());
                proof {
                    assert(m@ =~= state_msg_of(*self));
                }
                m
            },
            StateError::Bytes(b) => {
                let mut m = "bytes encoding error: ".to_owned();
                m.append(b.message().as_str());
                proof {
                    assert(m@ =~= state_msg_of(*self));
                }
                m
            },
            StateError::Canon(c) => {
                let mut m = "canonical error: ".to_owned();
                m.append(c.message().as_str());
                proof {
                    assert(m@ =~= state_msg_of(*self));
                }
                m
            },
            StateError::Cache(d) => {
                let mut m = "failed to read or write the cache: ".to_owned();
                m.append(d.as_str());
                proof {
                    assert(m@ =~= state_msg_of(*self));
                }
                m
            },
            StateError::Io(i) => {
                let mut m = "an i/o error occurred: ".to_owned();
                m.append(i.detail.as_str());
                proof {
                    assert(m@ =~= state_msg_of(*self));
                }
                m
            },
        }
    }
}

impl ProverError {
    /// Renders this failure to its diagnostic text.
    pub fn message(&self) -> (r: String)
        ensures
            r@ == prover_msg_of(*self),
    {
        match self {
            ProverError::Rusk(s) => {
                let mut m = "rusk returned status ".to_owned();
                m.append(decimal(s.code as u64).as_str());
                m.append(": ");
                m.append(s.message.as_str());
                proof {
                    assert(m@ =~= prover_msg_of(*self));
                }
                m
            },
            ProverError::Bytes(b) => {
                let mut m = "bytes encoding error: ".to_owned();
                m.append(b.message().as_str());
                proof {
                    assert(m@ =~= prover_msg_of(*self));
                }
                m
            },
            ProverError::Canon(c) => {
                let mut m = "canonical error: ".to_owned();
                m.append(c.message().as_str());
                proof {
                    assert(m@ =~= prover_msg_of(*self));
                }
                m
            },
            ProverError::Transaction(r) => {
                let mut m = "transaction failed: ".to_owned();
                m.append(r.as_str());
                proof {
                    assert(m@ =~= prover_msg_of(*self));
                }
                m
            },
        }
    }
}

impl BytesError {
    /// Renders this failure to its diagnostic text.
    pub fn message(&self) -> (r: String)
        ensures
            r@ == bytes_msg_of(*self),
    {
        match self {
            BytesError::InvalidData => "invalid data".to_owned(),
            BytesError::BadLength { found, expected } => {
                let mut m = "bad length ".to_owned();
                m.append(decimal(*found as u64).as_str());
                m.append(", expected ");
                m.append(decimal(*expected as u64).as_str());
                proof {
                    assert(m@ =~= bytes_msg_of(*self));
                }
                m
            },
            BytesError::InvalidChar { ch: _, index } => {
                let mut m = "invalid character at index ".to_owned();
                m.append(decimal(*index as u64).as_str());
                proof {
                    assert(m@ =~= bytes_msg_of(*self));
                }
                m
            },
        }
    }
}

impl Base58Error {
    /// Renders this failure to its diagnostic text.
    pub fn message(&self) -> (r: String)
        ensures
            r@ == base58_msg_of(*self),
    {
        match self {
            Base58Error::BufferTooSmall => "buffer too small".to_owned(),
            Base58Error::InvalidCharacter { character: _, index } => {
                let mut m = "invalid character at index ".to_owned();
                m.append(decimal(*index as u64).as_str());
                proof {
                    assert(m@ =~= base58_msg_of(*self));
                }
                m
            },
            Base58Error::NonAsciiCharacter { index } => {
                let mut m = "non-ascii character at index ".to_owned();
                m.append(decimal(*index as u64).as_str());
                proof {
                    assert(m@ =~= base58_msg_of(*self));
                }
                m
            },
            Base58Error::Unrecognized => "unrecognized decoding failure".to_owned(),
        }
    }
}

impl CanonError {
    /// Renders this failure to its diagnostic text.
    pub fn message(&self) -> (r: String)
        ensures
            r@ == canon_msg_of(*self),
    {
        match self {
            CanonError::NotFound => "not found".to_owned(),
            CanonError::InvalidEncoding => "invalid encoding".to_owned(),
        }
    }
}

impl Error {
    /// Renders this error to its diagnostic text: the message fixed by
    /// `msg_of`, with every numeric payload reproduced in decimal and every
    /// detail string verbatim.
    pub fn message(&self) -> (r: String)
        ensures
            r@ == msg_of(*self),
    {
        match self {
            Error::State(s) => {
                let mut m = "state client error: ".to_owned();
                m.append(s.message().as_str());
                proof {
                    assert(m@ =~= msg_of(*self));
                }
                m
            },
            Error::Prover(p) => {
                let mut m = "prover client error: ".to_owned();
                m.append(p.message().as_str());
                proof {
                    assert(m@ =~= msg_of(*self));
                }
                m
            },
            Error::Store(_) => "An error occurred in the store".to_owned(),
            Error::Network(d) => {
                let mut m = "network error: ".to_owned();
                m.append(d.as_str());
                proof {
                    assert(m@ =~= msg_of(*self));
                }
                m
            },
            Error::RuskURI(d) => {
                let mut m = "rusk uri failure: ".to_owned();
                m.append(d.as_str());
                proof {
                    assert(m@ =~= msg_of(*self));
                }
                m
            },
            Error::RuskConn(d) => {
                let mut m = "rusk connection failure: ".to_owned();
                m.append(d.as_str());
                proof {
                    assert(m@ =~= msg_of(*self));
                }
                m
            },
            Error::ProverConn(d) => {
                let mut m = "prover cluster connection failure: ".to_owned();
                m.append(d.as_str());
                proof {
                    assert(m@ =~= msg_of(*self));
                }
                m
            },
            Error::Offline => "command not available in offline mode".to_owned(),
            Error::Unauthorized => "unauthorized to access this wallet".to_owned(),
            Error::IO(i) => {
                let mut m = "filesystem error: ".to_owned();
                m.append(i.detail.as_str());
                proof {
                    assert(m@ =~= msg_of(*self));
                }
                m
            },
            Error::Json(j) => {
                let mut m = "json serialization error: ".to_owned();
                let word = match j.category {
                    JsonCategory::Io => "i/o",
                    JsonCategory::Syntax => "syntax",
                    JsonCategory::Data => "data",
                    JsonCategory::Eof => "end of input",
                };
                m.append(word);
                m.append(" failure at line ");
                m.append(decimal(j.line as u64).as_str());
                m.append(", column ");
                m.append(decimal(j.column as u64).as_str());
                proof {
                    assert(m@ =~= msg_of(*self));
                }
                m
            },
            Error::Bytes(b) => {
                let mut m = "bytes encoding error: ".to_owned();
                m.append(b.message().as_str());
                proof {
                    assert(m@ =~= msg_of(*self));
                }
                m
            },
            Error::Base58(b) => {
                let mut m = "base58 error: ".to_owned();
                m.append(b.message().as_str());
                proof {
                    assert(m@ =~= msg_of(*self));
                }
                m
            },
            Error::Canon(c) => {
                let mut m = "canonical error: ".to_owned();
                m.append(c.message().as_str());
                proof {
                    assert(m@ =~= msg_of(*self));
                }
                m
            },
            Error::Rng(code) => match code {
                Some(c) => {
                    let mut m = "random number generator error, code ".to_owned();
                    m.append(decimal(*c as u64).as_str());
                    proof {
                        assert(m@ =~= msg_of(*self));
                    }
                    m
                },
                None => "random number generator error".to_owned(),
            },
            Error::Phoenix(d) => {
                let mut m = "transaction model error: ".to_owned();
                m.append(d.as_str());
                proof {
                    assert(m@ =~= msg_of(*self));
                }
                m
            },
            Error::NotEnoughBalance => "not enough balance to perform transaction".to_owned(),
            Error::AmountIsZero => "amount to transfer or stake cannot be zero".to_owned(),
            Error::NoteCombinationProblem => (
            "note combination for the given value is impossible given the maximum amount of inputs in a transaction".to_owned()
            ),
            Error::NotEnoughGas => "not enough gas to perform this transaction".to_owned(),
            Error::StakingNotAllowed => (
            "staking is only allowed when running your own local rusk instance".to_owned()
            ),
            Error::AlreadyStaked => "a stake already exists for this key".to_owned(),
            Error::NotStaked => "a stake does not exist for this key".to_owned(),
            Error::NoReward => "no reward available for this key".to_owned(),
            Error::BadAddress => "invalid address".to_owned(),
            Error::AddressNotOwned => "address does not belong to this wallet".to_owned(),
            Error::InvalidMnemonicPhrase => "invalid credential".to_owned(),
            Error::NotDirectory => "path provided is not a directory".to_owned(),
            Error::WalletFileCorrupted => "wallet file content is not valid".to_owned(),
            Error::UnknownFileVersion(found, expected) => {
                let mut m = "file version ".to_owned();
                m.append(decimal(*found as u64).as_str());
                m.append(" not recognized, expected version ");
                m.append(decimal(*expected as u64).as_str());
                proof {
                    assert(m@ =~= msg_of(*self));
                }
                m
            },
            Error::WalletFileNotExists => "wallet file not found on disk".to_owned(),
            Error::WalletFileExists => "a wallet file with this name already exists".to_owned(),
            Error::WalletFileMissing => "wallet file is missing".to_owned(),
            Error::InvalidPassword => "invalid credential".to_owned(),
            Error::SocketsNotSupported(d) => {
                let mut m = "socket connections are not available on this platform: ".to_owned();
                m.append(d.as_str());
                proof {
                    assert(m@ =~= msg_of(*self));
                }
                m
            },
            Error::StatusWalletConnected => (
            "a status callback must be set before connecting".to_owned()
            ),
        }
    }
}

} // verus!
