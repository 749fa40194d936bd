//! Declarations of the outside error types that cross the collaborator
//! boundary. Declaring a type lets it stand in signatures; its values stay
//! opaque, and the adapters in the boundary module reduce each to the plain
//! payload the taxonomy owns.

use vstd::prelude::*;

use bip39::Error as Bip39Error;
use bs58::decode::Error as Bs58DecodeError;
use rand_core::Error as RandCoreError;
use serde_json::Error as SerdeJsonError;
use tonic::transport::Error as TonicTransportError;

verus! {

#[verifier::external_type_specification]
#[verifier::external_body]
pub struct ExJsonError(SerdeJsonError);

#[verifier::external_type_specification]
#[verifier::external_body]
pub struct ExBase58DecodeError(Bs58DecodeError);

#[verifier::external_type_specification]
#[verifier::external_body]
pub struct ExRngError(RandCoreError);

#[verifier::external_type_specification]
#[verifier::external_body]
pub struct ExBip39Error(Bip39Error);

#[verifier::external_type_specification]
#[verifier::external_body]
pub struct ExInvalidKeyIvLength(block_modes::InvalidKeyIvLength);

#[verifier::external_type_specification]
#[verifier::external_body]
pub struct ExBlockModeError(block_modes::BlockModeError);

#[verifier::external_type_specification]
#[verifier::external_body]
pub struct ExStatus(tonic::Status);

#[verifier::external_type_specification]
#[verifier::external_body]
pub struct ExTransportError(TonicTransportError);

#[verifier::external_type_specification]
#[verifier::external_body]
pub struct ExInvalidUri(http::uri::InvalidUri);

#[verifier::external_type_specification]
#[verifier::external_body]
pub struct ExIoError(std::io::Error);

} // verus!
