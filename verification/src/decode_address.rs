//! The request to take an address apart.

use crate::address::Address;
use crate::address::AddressKind;
use crate::error::Error;
use vstd::prelude::*;

verus! {

/// The request: an address as text.
#[derive(Clone, Debug, PartialEq, Eq)]
pub struct DecodeAddressRequest {
    pub address: String,
}

/// The answer: what the address says.
#[derive(Clone, Debug, PartialEq, Eq)]
pub struct DecodeAddressResponse {
    pub network_id: u8,
    pub network_name: String,
    pub entity_type: AddressKind,
    pub data: Vec<u8>,
    pub hrp: String,
    pub address: Address,
}

impl DecodeAddressResponse {
    /// Whether the parts of the answer agree: the address is made of the
    /// bytes, belongs to the network, and names an entity of the kind.
    pub open spec fn consistent(self) -> bool {
        &&& self.address.bytes() == self.data@
        &&& self.address.spec_network_id() == self.network_id
        &&& self.address.spec_kind() == self.entity_type
    }

    /// The answer for the bytes that an address of the network `network_id`
    /// decodes to, with the prefix `hrp` that it was written with and the
    /// name of the network.
    pub fn from_parts(network_id: u8, network_name: String, hrp: String, data: Vec<u8>) -> (response:
        Result<DecodeAddressResponse, Error>)
        ensures
            response is Ok <==> Address::from_u8_array_accepts(data@),
            response matches Ok(r) ==> {
                &&& r.consistent()
                &&& r.network_id == network_id
                &&& r.network_name == network_name
                &&& r.hrp == hrp
                &&& r.data == data
            },
            response matches Err(e) ==> e == Error::UnrecognizedAddressFormat,
    {
        match Address::from_u8_array(data.as_slice(), network_id) {
            Ok(address) => {
                let entity_type = address.kind();
                Ok(
                    DecodeAddressResponse {
                        network_id,
                        network_name,
                        entity_type,
                        data,
                        hrp,
                        address,
                    },
                )
            },
            Err(e) => Err(e),
        }
    }
}

} // verus!
