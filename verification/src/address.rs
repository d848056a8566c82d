use crate::hex::{hex_decode, hex_decoded, is_hex_str};
use vstd::prelude::*;

verus! {

/// A 20-byte account or contract address.
#[derive(Clone, Debug)]
pub struct Address {
    bytes: Vec<u8>,
}

impl View for Address {
    type V = Seq<u8>;

    closed spec fn view(&self) -> Seq<u8> {
        self.bytes@
    }
}

/// The hexadecimal digits of an address string, its optional `0x` prefix
/// stripped.
pub open spec fn hex_body(s: Seq<u8>) -> Seq<u8> {
    if s.len() >= 2 && s[0] == 0x30 && s[1] == 0x78 {
        s.subrange(2, s.len() as int)
    } else {
        s
    }
}

/// Whether the byte string spells an address: an optional `0x` prefix and
/// exactly forty hexadecimal digits.
pub open spec fn is_address_hex(s: Seq<u8>) -> bool {
    hex_body(s).len() == 40 && is_hex_str(hex_body(s))
}

/// The twenty bytes an address string denotes.
pub open spec fn address_of_hex(s: Seq<u8>) -> Seq<u8> {
    hex_decoded(hex_body(s))
}

/// The bytes of the on-chain registry's well-known address, which ends in
/// `ce10` after eighteen zero bytes.
pub open spec fn registry_address_bytes() -> Seq<u8> {
    Seq::new(20, |i: int| if i == 18 { 0xce as u8 } else if i == 19 { 0x10 as u8 } else { 0u8 })
}

impl Address {
    /// Whether this address holds exactly twenty bytes.
    pub open spec fn well_formed(&self) -> bool {
        self@.len() == 20
    }

    /// Parse an address from hexadecimal text: an optional `0x` prefix and
    /// exactly forty digits. Succeeds exactly on such input.
    pub fn from_hex(s: &[u8]) -> (r: Option<Address>)
        ensures
            r is Some <==> is_address_hex(s@),
            r matches Some(a) ==> a.well_formed() && a@ == address_of_hex(s@),
    {
        let body: &[u8] = if s.len() >= 2 && s[0] == 0x30 && s[1] == 0x78 {
            vstd::slice::slice_subrange(s, 2, s.len())
        } else {
            s
        };
        if body.len() != 40 {
            return None;
        }
        match hex_decode(body) {
            Some(v) => {
                proof {
                    assert(hex_decoded(body@).len() == 20);
                }
                Some(Address { bytes: v })
            },
            None => None,
        }
    }

    /// An address from its twenty bytes, most significant first. Succeeds
    /// exactly when twenty bytes are handed in.
    pub fn from_bytes(bytes: Vec<u8>) -> (r: Option<Address>)
        ensures
            r is Some <==> bytes@.len() == 20,
            r matches Some(a) ==> a.well_formed() && a@ == bytes@,
    {
        if bytes.len() == 20 {
            Some(Address { bytes })
        } else {
            None
        }
    }

    /// The well-known address of the on-chain registry contract.
    pub fn registry() -> (r: Address)
        ensures
            r.well_formed(),
            r@ == registry_address_bytes(),
    {
        let mut bytes: Vec<u8> = Vec::new();
        let mut i: usize = 0;
        while i < 18
            invariant
                i <= 18,
                bytes@.len() == i,
                forall|j: int| 0 <= j < i ==> bytes@[j] == 0u8,
            decreases 18 - i,
        {
            bytes.push(0u8);
            i = i + 1;
        }
        bytes.push(0xce);
        bytes.push(0x10);
        proof {
            assert(bytes@ =~= registry_address_bytes());
        }
        Address { bytes }
    }

    /// The address's bytes, most significant first.
    pub fn as_bytes(&self) -> (r: &Vec<u8>)
        ensures
            r@ == self@,
    {
        &self.bytes
    }
}

} // verus!
