//! Addresses of global entities, each with the network that it belongs to.

use crate::error::Error;
use crate::resource::ResourceAddress;
use vstd::prelude::*;

verus! {

/// Whether a node id that starts with this byte is that of a global
/// component: the consensus manager, a validator, the transaction tracker,
/// a generic component, an account, an identity, an access controller, a
/// pool or an account locker.
pub open spec fn is_component_entity_byte(byte: u8) -> bool {
    byte == 134 || byte == 131 || byte == 130 || byte == 192 || byte == 193 || byte == 194 || byte
        == 195 || byte == 196 || byte == 197 || byte == 198 || byte == 104 || byte == 209 || byte
        == 210 || byte == 81 || byte == 82
}

/// Whether a node id that starts with this byte is that of a resource
/// manager, fungible or non-fungible.
pub open spec fn is_resource_entity_byte(byte: u8) -> bool {
    byte == 93 || byte == 154
}

/// Whether a node id that starts with this byte is that of a package.
pub open spec fn is_package_entity_byte(byte: u8) -> bool {
    byte == 13
}

/// Whether the bytes are the node id of a global component.
pub open spec fn is_component_address(data: Seq<u8>) -> bool {
    data.len() == 30 && is_component_entity_byte(data[0])
}

/// Whether the bytes are the node id of a resource manager.
pub open spec fn is_resource_address(data: Seq<u8>) -> bool {
    data.len() == 30 && is_resource_entity_byte(data[0])
}

/// Whether the bytes are the node id of a package.
pub open spec fn is_package_address(data: Seq<u8>) -> bool {
    data.len() == 30 && is_package_entity_byte(data[0])
}

/// The address of a component, and its network.
#[derive(Clone, Copy, Debug, PartialEq, Eq, Hash)]
pub struct NetworkAwareComponentAddress {
    pub network_id: u8,
    pub address: [u8; 30],
}

/// The address of a resource, and its network.
#[derive(Clone, Copy, Debug, PartialEq, Eq, Hash)]
pub struct NetworkAwareResourceAddress {
    pub network_id: u8,
    pub address: ResourceAddress,
}

/// The address of a package, and its network.
#[derive(Clone, Copy, Debug, PartialEq, Eq, Hash)]
pub struct NetworkAwarePackageAddress {
    pub network_id: u8,
    pub address: [u8; 30],
}

/// Calls `radix_common::types::ComponentAddress::try_from` on the bytes and
/// gives the bytes of the address back. The contract claims that the call
/// accepts exactly the strings of 30 bytes whose first byte is the entity
/// type of a global component, and keeps the bytes.
#[verifier::external_body]
fn native_component_address(data: &[u8]) -> (address: Option<[u8; 30]>)
    ensures
        address is Some <==> is_component_address(data@),
        address matches Some(bytes) ==> bytes@ == data@,
{
    match radix_common::types::ComponentAddress::try_from(data) {
        Ok(address) => Some(address.into()),
        Err(_) => None,
    }
}

/// Calls `radix_common::types::ResourceAddress::try_from` on the bytes and
/// gives the bytes of the address back. The contract claims that the call
/// accepts exactly the strings of 30 bytes whose first byte is the entity
/// type of a resource manager, and keeps the bytes.
#[verifier::external_body]
fn native_resource_address(data: &[u8]) -> (address: Option<[u8; 30]>)
    ensures
        address is Some <==> is_resource_address(data@),
        address matches Some(bytes) ==> bytes@ == data@,
{
    match radix_common::types::ResourceAddress::try_from(data) {
        Ok(address) => Some(address.into()),
        Err(_) => None,
    }
}

/// Calls `radix_common::types::PackageAddress::try_from` on the bytes and
/// gives the bytes of the address back. The contract claims that the call
/// accepts exactly the strings of 30 bytes whose first byte is the entity
/// type of a package, and keeps the bytes.
#[verifier::external_body]
fn native_package_address(data: &[u8]) -> (address: Option<[u8; 30]>)
    ensures
        address is Some <==> is_package_address(data@),
        address matches Some(bytes) ==> bytes@ == data@,
{
    match radix_common::types::PackageAddress::try_from(data) {
        Ok(address) => Some(address.into()),
        Err(_) => None,
    }
}

impl NetworkAwareComponentAddress {
    /// The address that the bytes hold, where they are those of a component.
    pub fn from_u8_array(data: &[u8], network_id: u8) -> (address: Result<Self, Error>)
        ensures
            address is Ok <==> is_component_address(data@),
            address matches Ok(a) ==> a.network_id == network_id && a.address@ == data@,
            address matches Err(e) ==> e == Error::UnrecognizedAddressFormat,
    {
        match native_component_address(data) {
            Some(address) => Ok(NetworkAwareComponentAddress { network_id, address }),
            None => Err(Error::UnrecognizedAddressFormat),
        }
    }
}

impl NetworkAwareResourceAddress {
    /// The address that the bytes hold, where they are those of a resource.
    pub fn from_u8_array(data: &[u8], network_id: u8) -> (address: Result<Self, Error>)
        ensures
            address is Ok <==> is_resource_address(data@),
            address matches Ok(a) ==> a.network_id == network_id && a.address@ == data@,
            address matches Err(e) ==> e == Error::UnrecognizedAddressFormat,
    {
        match native_resource_address(data) {
            Some(address) => Ok(
                NetworkAwareResourceAddress { network_id, address: ResourceAddress(address) },
            ),
            None => Err(Error::UnrecognizedAddressFormat),
        }
    }
}

impl NetworkAwarePackageAddress {
    /// The address that the bytes hold, where they are those of a package.
    pub fn from_u8_array(data: &[u8], network_id: u8) -> (address: Result<Self, Error>)
        ensures
            address is Ok <==> is_package_address(data@),
            address matches Ok(a) ==> a.network_id == network_id && a.address@ == data@,
            address matches Err(e) ==> e == Error::UnrecognizedAddressFormat,
    {
        match native_package_address(data) {
            Some(address) => Ok(NetworkAwarePackageAddress { network_id, address }),
            None => Err(Error::UnrecognizedAddressFormat),
        }
    }
}

/// The kinds of entities that an address can name.
#[derive(Clone, Copy, Debug, PartialEq, Eq, Structural)]
pub enum AddressKind {
    Resource,
    Package,
    NormalComponent,
    AccountComponent,
    EcdsaSecp256k1VirtualAccount,
    EddsaEd25519VirtualAccount,
}

/// The address of a component, a resource or a package.
#[derive(Clone, Copy, Debug, PartialEq, Eq)]
pub enum Address {
    ComponentAddress(NetworkAwareComponentAddress),
    ResourceAddress(NetworkAwareResourceAddress),
    PackageAddress(NetworkAwarePackageAddress),
}

impl Address {
    /// The bytes of the address.
    pub open spec fn bytes(self) -> Seq<u8> {
        match self {
            Address::ComponentAddress(a) => a.address@,
            Address::ResourceAddress(a) => a.address@,
            Address::PackageAddress(a) => a.address@,
        }
    }

    /// The network of the address.
    pub open spec fn spec_network_id(self) -> u8 {
        match self {
            Address::ComponentAddress(a) => a.network_id,
            Address::ResourceAddress(a) => a.network_id,
            Address::PackageAddress(a) => a.network_id,
        }
    }

    /// The kind of entity that the address names. An account is told by the
    /// first byte of its address: 193 where it was allocated, 209 and 81
    /// where it stands for a Secp256k1 or an Ed25519 key. Every other
    /// component is a normal one.
    pub open spec fn spec_kind(self) -> AddressKind {
        match self {
            Address::ComponentAddress(a) => {
                if a.address@[0] == 193 {
                    AddressKind::AccountComponent
                } else if a.address@[0] == 209 {
                    AddressKind::EcdsaSecp256k1VirtualAccount
                } else if a.address@[0] == 81 {
                    AddressKind::EddsaEd25519VirtualAccount
                } else {
                    AddressKind::NormalComponent
                }
            },
            Address::ResourceAddress(_) => AddressKind::Resource,
            Address::PackageAddress(_) => AddressKind::Package,
        }
    }

    /// Whether the bytes are an address of a component, a resource or a
    /// package.
    pub open spec fn from_u8_array_accepts(data: Seq<u8>) -> bool {
        is_component_address(data) || is_resource_address(data) || is_package_address(data)
    }

    /// The kind of entity that the address names.
    pub fn kind(&self) -> (kind: AddressKind)
        ensures
            kind == self.spec_kind(),
    {
        match self {
            Address::ComponentAddress(a) => {
                let entity: u8 = a.address[0];
                if entity == 193 {
                    AddressKind::AccountComponent
                } else if entity == 209 {
                    AddressKind::EcdsaSecp256k1VirtualAccount
                } else if entity == 81 {
                    AddressKind::EddsaEd25519VirtualAccount
                } else {
                    AddressKind::NormalComponent
                }
            },
            Address::ResourceAddress(_) => AddressKind::Resource,
            Address::PackageAddress(_) => AddressKind::Package,
        }
    }

    /// The network of the address.
    pub fn network_id(&self) -> (network_id: u8)
        ensures
            network_id == self.spec_network_id(),
    {
        match self {
            Address::ComponentAddress(address) => address.network_id,
            Address::ResourceAddress(address) => address.network_id,
            Address::PackageAddress(address) => address.network_id,
        }
    }

    /// The address that the bytes hold: that of a component, of a resource
    /// or of a package, by the first byte. Anything but 30 bytes that start
    /// with the entity type of one of these is not an address.
    pub fn from_u8_array(array: &[u8], network_id: u8) -> (address: Result<Self, Error>)
        ensures
            address is Ok <==> Address::from_u8_array_accepts(array@),
            address matches Ok(a) ==> {
                &&& a.bytes() == array@
                &&& a.spec_network_id() == network_id
                &&& a is ComponentAddress <==> is_component_address(array@)
                &&& a is ResourceAddress <==> is_resource_address(array@)
                &&& a is PackageAddress <==> is_package_address(array@)
            },
            address matches Err(e) ==> e == Error::UnrecognizedAddressFormat,
    {
        if let Ok(component_address) = NetworkAwareComponentAddress::from_u8_array(
            array,
            network_id,
        ) {
            Ok(Address::ComponentAddress(component_address))
        } else if let Ok(resource_address) = NetworkAwareResourceAddress::from_u8_array(
            array,
            network_id,
        ) {
            Ok(Address::ResourceAddress(resource_address))
        } else if let Ok(package_address) = NetworkAwarePackageAddress::from_u8_array(
            array,
            network_id,
        ) {
            Ok(Address::PackageAddress(package_address))
        } else {
            Err(Error::UnrecognizedAddressFormat)
        }
    }
}

} // verus!
