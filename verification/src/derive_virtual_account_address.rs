//! The addresses of the account and of the identity that stand for a public
//! key before either is created on the ledger.
//!
//! Such an address is the hash of the key under the entity type of the
//! account or identity. The hash is taken by `radix_common`.

use crate::address::is_component_entity_byte;
use crate::address::NetworkAwareComponentAddress;
use crate::error::Error;
use vstd::prelude::*;

verus! {

/// A public key.
#[derive(Clone, Copy, Debug, PartialEq, Eq)]
pub enum PublicKey {
    /// A compressed ECDSA key on the curve Secp256k1.
    EcdsaSecp256k1([u8; 33]),
    /// An EdDSA key on the curve Ed25519.
    EddsaEd25519([u8; 32]),
}

impl PublicKey {
    /// The bytes of the key.
    pub open spec fn bytes(self) -> Seq<u8> {
        match self {
            PublicKey::EcdsaSecp256k1(bytes) => bytes@,
            PublicKey::EddsaEd25519(bytes) => bytes@,
        }
    }

    /// The entity type of the account that stands for a key of this curve.
    pub open spec fn account_entity_byte(self) -> u8 {
        match self {
            PublicKey::EcdsaSecp256k1(_) => 209,
            PublicKey::EddsaEd25519(_) => 81,
        }
    }

    /// The entity type of the identity that stands for a key of this curve.
    pub open spec fn identity_entity_byte(self) -> u8 {
        match self {
            PublicKey::EcdsaSecp256k1(_) => 210,
            PublicKey::EddsaEd25519(_) => 82,
        }
    }
}

/// The node id of the account that stands for the key with these bytes, on
/// the curve Secp256k1 or else Ed25519.
pub uninterp spec fn preallocated_account_address(secp256k1: bool, key: Seq<u8>) -> Seq<u8>;

/// The node id of the identity that stands for the key with these bytes, on
/// the curve Secp256k1 or else Ed25519.
pub uninterp spec fn preallocated_identity_address(secp256k1: bool, key: Seq<u8>) -> Seq<u8>;

/// Calls `radix_common::types::ComponentAddress::preallocated_account_from_public_key`
/// on the key and gives the bytes of the address. The contract names the
/// result, which is a function of the curve and the bytes of the key alone,
/// and claims of it what the source shows: the first byte is the entity type
/// of an account preallocated for a key of that curve.
#[verifier::external_body]
fn native_preallocated_account_address(public_key: &PublicKey) -> (address: [u8; 30])
    ensures
        address@ == preallocated_account_address(
            *public_key is EcdsaSecp256k1,
            public_key.bytes(),
        ),
        address@[0] == public_key.account_entity_byte(),
{
    let key = match public_key {
        PublicKey::EcdsaSecp256k1(bytes) => radix_common::crypto::PublicKey::Secp256k1(
            radix_common::crypto::Secp256k1PublicKey(*bytes),
        ),
        PublicKey::EddsaEd25519(bytes) => radix_common::crypto::PublicKey::Ed25519(
            radix_common::crypto::Ed25519PublicKey(*bytes),
        ),
    };
    radix_common::types::ComponentAddress::preallocated_account_from_public_key(&key).into()
}

/// Calls `radix_common::types::ComponentAddress::preallocated_identity_from_public_key`
/// on the key and gives the bytes of the address. The contract names the
/// result, which is a function of the curve and the bytes of the key alone,
/// and claims of it what the source shows: the first byte is the entity type
/// of an identity preallocated for a key of that curve.
#[verifier::external_body]
fn native_preallocated_identity_address(public_key: &PublicKey) -> (address: [u8; 30])
    ensures
        address@ == preallocated_identity_address(
            *public_key is EcdsaSecp256k1,
            public_key.bytes(),
        ),
        address@[0] == public_key.identity_entity_byte(),
{
    let key = match public_key {
        PublicKey::EcdsaSecp256k1(bytes) => radix_common::crypto::PublicKey::Secp256k1(
            radix_common::crypto::Secp256k1PublicKey(*bytes),
        ),
        PublicKey::EddsaEd25519(bytes) => radix_common::crypto::PublicKey::Ed25519(
            radix_common::crypto::Ed25519PublicKey(*bytes),
        ),
    };
    radix_common::types::ComponentAddress::preallocated_identity_from_public_key(&key).into()
}

/// The address of the account that stands for the key. It is the address of
/// a component.
pub fn virtual_account_address_from_public_key(public_key: &PublicKey) -> (address: [u8; 30])
    ensures
        address@ == preallocated_account_address(
            *public_key is EcdsaSecp256k1,
            public_key.bytes(),
        ),
        address@[0] == public_key.account_entity_byte(),
        is_component_entity_byte(address@[0]),
{
    native_preallocated_account_address(public_key)
}

/// The address of the identity that stands for the key. It is the address
/// of a component.
pub fn virtual_identity_address_from_public_key(public_key: &PublicKey) -> (address: [u8; 30])
    ensures
        address@ == preallocated_identity_address(
            *public_key is EcdsaSecp256k1,
            public_key.bytes(),
        ),
        address@[0] == public_key.identity_entity_byte(),
        is_component_entity_byte(address@[0]),
{
    native_preallocated_identity_address(public_key)
}

/// The request for the address of the account that stands for a key.
#[derive(Clone, Copy, Debug, PartialEq, Eq)]
pub struct DeriveVirtualAccountAddressRequest {
    /// The network that the address is for.
    pub network_id: u8,
    /// The key.
    pub public_key: PublicKey,
}

/// The answer: the address of the account, with its network.
#[derive(Clone, Copy, Debug, PartialEq, Eq)]
pub struct DeriveVirtualAccountAddressResponse {
    pub virtual_account_address: NetworkAwareComponentAddress,
}

impl DeriveVirtualAccountAddressResponse {
    /// The answer that holds the address `address` on the network
    /// `network_id`.
    pub fn for_address(network_id: u8, address: [u8; 30]) -> (response: Self)
        ensures
            response.virtual_account_address.network_id == network_id,
            response.virtual_account_address.address == address,
    {
        DeriveVirtualAccountAddressResponse {
            virtual_account_address: NetworkAwareComponentAddress { network_id, address },
        }
    }
}

/// Answers the request.
pub struct DeriveVirtualAccountAddressHandler;

impl DeriveVirtualAccountAddressHandler {
    /// The request needs no preparation.
    pub fn pre_process(request: DeriveVirtualAccountAddressRequest) -> (prepared: Result<
        DeriveVirtualAccountAddressRequest,
        Error,
    >)
        ensures
            prepared == Ok::<DeriveVirtualAccountAddressRequest, Error>(request),
    {
        Ok(request)
    }

    /// The address of the account that stands for the key of the request,
    /// on the network of the request.
    pub fn handle(request: &DeriveVirtualAccountAddressRequest) -> (response: Result<
        DeriveVirtualAccountAddressResponse,
        Error,
    >)
        ensures
            response matches Ok(r) && {
                &&& r.virtual_account_address.network_id == request.network_id
                &&& r.virtual_account_address.address@ == preallocated_account_address(
                    request.public_key is EcdsaSecp256k1,
                    request.public_key.bytes(),
                )
                &&& r.virtual_account_address.address@[0]
                    == request.public_key.account_entity_byte()
            },
    {
        let address = virtual_account_address_from_public_key(&request.public_key);
        Ok(DeriveVirtualAccountAddressResponse::for_address(request.network_id, address))
    }

    /// The answer is given as it is.
    pub fn post_process(
        _request: &DeriveVirtualAccountAddressRequest,
        response: DeriveVirtualAccountAddressResponse,
    ) -> (processed: Result<DeriveVirtualAccountAddressResponse, Error>)
        ensures
            processed == Ok::<DeriveVirtualAccountAddressResponse, Error>(response),
    {
        Ok(response)
    }
}

} // verus!
