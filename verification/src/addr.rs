//! The kernel's fixed-width binary address representation.
//!
//! The kernel stores every address, IPv4 or IPv6, in a 16-byte buffer; an
//! IPv4 address occupies the first four bytes and the rest is zero.  The
//! address family is carried beside the buffer in the enclosing message.

use vstd::prelude::*;

use crate::errors::Error;

verus! {

/// Address family code for IPv4.
pub const AF_INET: u16 = 2;

/// Address family code for IPv6.
pub const AF_INET6: u16 = 10;

/// True when raw bytes can be converted to the kernel form: exactly the
/// length of an IPv4 or an IPv6 address.
pub open spec fn addr_bytes_ok(b: Seq<u8>) -> bool {
    b.len() == 4 || b.len() == 16
}

/// The address family that raw address bytes imply.
pub open spec fn addr_family(b: Seq<u8>) -> u16 {
    if b.len() == 4 {
        AF_INET
    } else {
        AF_INET6
    }
}

/// Raw address bytes laid out in the kernel's 16-byte buffer: the bytes
/// themselves, then zero padding.
pub open spec fn padded16(b: Seq<u8>) -> Seq<u8> {
    Seq::new(16, |i: int| if i < b.len() { b[i] } else { 0u8 })
}

/// The all-zero 16-byte buffer: the unspecified address.
pub open spec fn zero16() -> Seq<u8> {
    Seq::new(16, |i: int| 0u8)
}

/// An address in the kernel's fixed-width binary form.
#[derive(Clone, Debug, PartialEq, Eq)]
pub struct Address {
    /// Always exactly 16 bytes; an IPv4 address sits in the first four.
    pub octets: Vec<u8>,
}

impl Address {
    /// Structural well-formedness: the buffer has the kernel's fixed width.
    pub open spec fn wf(&self) -> bool {
        self.octets@.len() == 16
    }

    /// The unspecified (all-zero) address.
    pub fn zero() -> (r: Address)
        ensures
            r.octets@ == zero16(),
    {
        let mut octets: Vec<u8> = Vec::new();
        let mut i: usize = 0;
        while i < 16
            invariant
                i <= 16,
                octets@.len() == i,
                forall|j: int| 0 <= j < i ==> octets@[j] == 0u8,
            decreases 16 - i,
        {
            octets.push(0u8);
            i = i + 1;
        }
        proof {
            assert(octets@ =~= zero16());
        }
        Address { octets }
    }

    /// The address family the raw bytes imply: IPv4 for a 4-byte input,
    /// IPv6 otherwise.
    pub fn family_of(bytes: &Vec<u8>) -> (f: u16)
        ensures
            f == addr_family(bytes@),
    {
        if bytes.len() == 4 {
            AF_INET
        } else {
            AF_INET6
        }
    }

    /// Converts the address part of an address-and-prefix pair.  Succeeds
    /// exactly on a 4-byte or 16-byte address; anything else is rejected
    /// with the raw bytes of both parts of the pair.
    pub fn from_bytes_prefixed(bytes: Vec<u8>, prefix_len: u8) -> (r: Result<Address, Error>)
        ensures
            addr_bytes_ok(bytes@) ==> (r matches Ok(a) && a.octets@ == padded16(bytes@)),
            !addr_bytes_ok(bytes@) ==> (r matches Err(e) && e matches Error::InvalidAddress(b, p)
                && b == bytes && p@ == seq![prefix_len]),
    {
        if bytes.len() != 4 && bytes.len() != 16 {
            let mut p: Vec<u8> = Vec::new();
            p.push(prefix_len);
            proof {
                assert(p@ =~= seq![prefix_len]);
            }
            return Err(Error::InvalidAddress(bytes, p));
        }
        Address::from_bytes(bytes)
    }

    /// Converts raw address bytes to the kernel form.  Succeeds exactly on a
    /// 4-byte or 16-byte input; anything else is rejected with the offending
    /// bytes.
    pub fn from_bytes(bytes: Vec<u8>) -> (r: Result<Address, Error>)
        ensures
            addr_bytes_ok(bytes@) ==> (r matches Ok(a) && a.octets@ == padded16(bytes@)),
            !addr_bytes_ok(bytes@) ==> r == Err::<Address, Error>(Error::InvalidIp(bytes)),
    {
        let n = bytes.len();
        if n != 4 && n != 16 {
            return Err(Error::InvalidIp(bytes));
        }
        let mut octets: Vec<u8> = Vec::new();
        let mut i: usize = 0;
        while i < 16
            invariant
                i <= 16,
                n == bytes@.len(),
                n == 4 || n == 16,
                octets@.len() == i,
                forall|j: int| 0 <= j < i ==> octets@[j] == padded16(bytes@)[j],
            decreases 16 - i,
        {
            if i < n {
                octets.push(bytes[i]);
            } else {
                octets.push(0u8);
            }
            i = i + 1;
        }
        proof {
            assert(octets@ =~= padded16(bytes@));
        }
        Ok(Address { octets })
    }
}

} // verus!
