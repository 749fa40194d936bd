//! Laws of the taxonomy, stated and proved once so that callers need not
//! re-derive them from the individual contracts.

use vstd::prelude::*;

use crate::classify::{remediation_of, tag_of};
use crate::convert::{unified_of_core, unified_of_prover, unified_of_state, unified_of_store};
use crate::error::{CoreError, Error, ProverError, StateError, StoreError};
use crate::render::{dec_of, msg_of};

verus! {

/// `needle` occurs contiguously somewhere in `hay`.
pub open spec fn contains_seq(hay: Seq<char>, needle: Seq<char>) -> bool {
    exists|i: int|
        0 <= i && i + needle.len() <= hay.len() && #[trigger] hay.subrange(i, i + needle.len())
            == needle
}

/// Totality and losslessness of the wallet-core conversion: every value of
/// the core's failure surface converts, a forwarded collaborator error is
/// carried whole under that collaborator's own tag, and a rule violation
/// detected by the core becomes exactly the matching domain tag.
pub proof fn lemma_core_conversion_total(e: CoreError)
    ensures
        e matches CoreError::Store(err) ==> unified_of_core(e) == Error::Store(err),
        e matches CoreError::State(err) ==> unified_of_core(e) == Error::State(err),
        e matches CoreError::Prover(err) ==> unified_of_core(e) == Error::Prover(err),
        e matches CoreError::Canon(c) ==> unified_of_core(e) == Error::Canon(c),
        e matches CoreError::Rng(code) ==> unified_of_core(e) == Error::Rng(code),
        e matches CoreError::Bytes(b) ==> unified_of_core(e) == Error::Bytes(b),
        e matches CoreError::Phoenix(d) ==> unified_of_core(e) == Error::Phoenix(d),
        e is NotEnoughBalance ==> unified_of_core(e) == Error::NotEnoughBalance,
        e is NoteCombinationProblem ==> unified_of_core(e) == Error::NoteCombinationProblem,
        e is AlreadyStaked ==> unified_of_core(e) == Error::AlreadyStaked,
        e is NotStaked ==> unified_of_core(e) == Error::NotStaked,
        e is NoReward ==> unified_of_core(e) == Error::NoReward,
{
}

/// No cross-contamination: converting one collaborator's error always
/// yields that collaborator's unified tag, carrying the error whole, and
/// never another collaborator's tag.
pub proof fn lemma_no_cross_contamination(s: StateError, p: ProverError, t: StoreError)
    ensures
        unified_of_state(s) == Error::State(s),
        !(unified_of_state(s) is Prover),
        !(unified_of_state(s) is Store),
        unified_of_prover(p) == Error::Prover(p),
        !(unified_of_prover(p) is State),
        !(unified_of_prover(p) is Store),
        unified_of_store(t) == Error::Store(t),
        !(unified_of_store(t) is State),
        !(unified_of_store(t) is Prover),
{
}

/// Non-collapse of the wallet-file lifecycle: the five outcomes — file
/// missing, file already exists, file corrupted, version mismatch, wrong
/// password — keep pairwise distinct tags, whatever versions the mismatch
/// carries, so no remediation information is lost in conversion.
pub proof fn lemma_lifecycle_non_collapse(found: u8, expected: u8)
    ensures
        tag_of(Error::WalletFileMissing) != tag_of(Error::WalletFileExists),
        tag_of(Error::WalletFileMissing) != tag_of(Error::WalletFileCorrupted),
        tag_of(Error::WalletFileMissing) != tag_of(Error::UnknownFileVersion(found, expected)),
        tag_of(Error::WalletFileMissing) != tag_of(Error::InvalidPassword),
        tag_of(Error::WalletFileExists) != tag_of(Error::WalletFileCorrupted),
        tag_of(Error::WalletFileExists) != tag_of(Error::UnknownFileVersion(found, expected)),
        tag_of(Error::WalletFileExists) != tag_of(Error::InvalidPassword),
        tag_of(Error::WalletFileCorrupted) != tag_of(Error::UnknownFileVersion(found, expected)),
        tag_of(Error::WalletFileCorrupted) != tag_of(Error::InvalidPassword),
        tag_of(Error::UnknownFileVersion(found, expected)) != tag_of(Error::InvalidPassword),
{
}

/// Idempotent classification: the remediation class is a pure function of
/// the error value, so classifying equal values, or the same value twice,
/// always yields the same class.
pub proof fn lemma_classification_idempotent(a: Error, b: Error)
    requires
        a == b,
    ensures
        remediation_of(a) == remediation_of(b),
{
}

/// Losslessness of the version-mismatch rendering: the diagnostic text of
/// `UnknownFileVersion` is exactly a fixed prefix, the version found, a
/// fixed infix, and the version expected — so both numbers occur in it
/// verbatim, the found version first.
pub proof fn lemma_version_message_lossless(found: u8, expected: u8)
    ensures
        msg_of(Error::UnknownFileVersion(found, expected)) == "file version "@ + dec_of(
            found as nat,
        ) + " not recognized, expected version "@ + dec_of(expected as nat),
        contains_seq(msg_of(Error::UnknownFileVersion(found, expected)), dec_of(found as nat)),
        contains_seq(msg_of(Error::UnknownFileVersion(found, expected)), dec_of(expected as nat)),
{
    let prefix = "file version "@;
    let infix = " not recognized, expected version "@;
    let df = dec_of(found as nat);
    let de = dec_of(expected as nat);
    let m = msg_of(Error::UnknownFileVersion(found, expected));
    assert(m == prefix + df + infix + de);
    let i = prefix.len() as int;
    assert(m.subrange(i, i + df.len()) =~= df);
    let j = (prefix.len() + df.len() + infix.len()) as int;
    assert(m.subrange(j, j + de.len()) =~= de);
}

/// Credential indistinguishability: a wrong password and an invalid
/// recovery phrase render to one identical message, so the text offers no
/// oracle for which credential check failed.
pub proof fn lemma_credential_messages_indistinguishable()
    ensures
        msg_of(Error::InvalidPassword) == msg_of(Error::InvalidMnemonicPhrase),
{
}

} // verus!

