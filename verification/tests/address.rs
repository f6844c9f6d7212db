use radix_engine_toolkit::address::Address;
use radix_engine_toolkit::address::AddressKind;
use radix_engine_toolkit::address::NetworkAwareComponentAddress;
use radix_engine_toolkit::address::NetworkAwarePackageAddress;
use radix_engine_toolkit::address::NetworkAwareResourceAddress;
use radix_engine_toolkit::decode_address::DecodeAddressResponse;
use radix_engine_toolkit::error::Error;
use radix_engine_toolkit::resource::ResourceAddress;

fn bytes(entity: u8) -> [u8; 30] {
    let mut bytes = [3u8; 30];
    bytes[0] = entity;
    bytes
}

#[test]
fn the_address_of_xrd_is_that_of_a_resource() {
    let xrd: [u8; 30] = radix_common::constants::XRD.into();
    let address = Address::from_u8_array(&xrd, 1).unwrap();
    assert_eq!(
        address,
        Address::ResourceAddress(NetworkAwareResourceAddress {
            network_id: 1,
            address: ResourceAddress(xrd)
        })
    );
    assert_eq!(address.kind(), AddressKind::Resource);
    assert_eq!(address.network_id(), 1);
}

#[test]
fn the_faucet_is_a_component_and_its_package_a_package() {
    let faucet: [u8; 30] = radix_common::constants::FAUCET.into();
    let address = Address::from_u8_array(&faucet, 2).unwrap();
    assert_eq!(
        address,
        Address::ComponentAddress(NetworkAwareComponentAddress { network_id: 2, address: faucet })
    );
    assert_eq!(address.kind(), AddressKind::NormalComponent);
    let package: [u8; 30] = radix_common::constants::FAUCET_PACKAGE.into();
    let address = Address::from_u8_array(&package, 242).unwrap();
    assert_eq!(
        address,
        Address::PackageAddress(NetworkAwarePackageAddress { network_id: 242, address: package })
    );
    assert_eq!(address.kind(), AddressKind::Package);
    assert_eq!(address.network_id(), 242);
}

#[test]
fn every_entity_byte_is_sorted_as_the_engine_sorts_it() {
    for entity in 0..=255u8 {
        let data = bytes(entity);
        let component = radix_common::types::ComponentAddress::try_from(&data[..]).is_ok();
        let resource = radix_common::types::ResourceAddress::try_from(&data[..]).is_ok();
        let package = radix_common::types::PackageAddress::try_from(&data[..]).is_ok();
        assert_eq!(NetworkAwareComponentAddress::from_u8_array(&data, 1).is_ok(), component);
        assert_eq!(NetworkAwareResourceAddress::from_u8_array(&data, 1).is_ok(), resource);
        assert_eq!(NetworkAwarePackageAddress::from_u8_array(&data, 1).is_ok(), package);
        match Address::from_u8_array(&data, 1) {
            Ok(Address::ComponentAddress(a)) => assert!(component && a.address == data),
            Ok(Address::ResourceAddress(a)) => assert!(resource && a.address == ResourceAddress(data)),
            Ok(Address::PackageAddress(a)) => assert!(package && a.address == data),
            Err(e) => {
                assert_eq!(e, Error::UnrecognizedAddressFormat);
                assert!(!component && !resource && !package);
            }
        }
    }
}

#[test]
fn the_kinds_of_accounts() {
    let kind = |entity: u8| Address::from_u8_array(&bytes(entity), 1).unwrap().kind();
    assert_eq!(kind(193), AddressKind::AccountComponent);
    assert_eq!(kind(209), AddressKind::EcdsaSecp256k1VirtualAccount);
    assert_eq!(kind(81), AddressKind::EddsaEd25519VirtualAccount);
    assert_eq!(kind(192), AddressKind::NormalComponent);
    assert_eq!(kind(131), AddressKind::NormalComponent);
    assert_eq!(kind(93), AddressKind::Resource);
    assert_eq!(kind(154), AddressKind::Resource);
    assert_eq!(kind(13), AddressKind::Package);
}

#[test]
fn bytes_of_another_length_are_no_address() {
    let data = bytes(193);
    assert_eq!(Address::from_u8_array(&data[..29], 1), Err(Error::UnrecognizedAddressFormat));
    assert_eq!(Address::from_u8_array(&[], 1), Err(Error::UnrecognizedAddressFormat));
    let mut longer = data.to_vec();
    longer.push(0);
    assert_eq!(Address::from_u8_array(&longer, 1), Err(Error::UnrecognizedAddressFormat));
    assert_eq!(
        NetworkAwareComponentAddress::from_u8_array(&longer, 1),
        Err(Error::UnrecognizedAddressFormat)
    );
}

#[test]
fn bytes_of_an_internal_entity_are_no_address() {
    assert_eq!(Address::from_u8_array(&bytes(88), 1), Err(Error::UnrecognizedAddressFormat));
    assert_eq!(Address::from_u8_array(&bytes(0), 1), Err(Error::UnrecognizedAddressFormat));
}

#[test]
fn a_decoded_address_is_described_by_its_parts() {
    let data = bytes(193).to_vec();
    let response =
        DecodeAddressResponse::from_parts(1, "mainnet".to_string(), "account_rdx".to_string(), data.clone())
            .unwrap();
    assert_eq!(response.network_id, 1);
    assert_eq!(response.network_name, "mainnet");
    assert_eq!(response.hrp, "account_rdx");
    assert_eq!(response.data, data);
    assert_eq!(response.entity_type, AddressKind::AccountComponent);
    assert_eq!(
        response.address,
        Address::ComponentAddress(NetworkAwareComponentAddress { network_id: 1, address: bytes(193) })
    );
    assert_eq!(
        DecodeAddressResponse::from_parts(1, "mainnet".to_string(), "x".to_string(), vec![1, 2, 3]),
        Err(Error::UnrecognizedAddressFormat)
    );
}
