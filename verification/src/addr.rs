use vstd::prelude::*;

use crate::error::HookError;

verus! {

/// Number of bytes in a ledger address.
pub const ADDRESS_LEN: usize = 32;

/// A ledger address: an opaque 32-byte identifier for an account, a program,
/// or a derived (keyless) authority. The module compares addresses byte for
/// byte and never interprets their contents.
#[derive(Debug)]
pub struct Address {
    bytes: Vec<u8>,
}

impl View for Address {
    type V = Seq<u8>;

    closed spec fn view(&self) -> Seq<u8> {
        self.bytes@
    }
}

impl Address {
    /// An address is well formed when it holds exactly 32 bytes.
    pub open spec fn wf(&self) -> bool {
        self@.len() == ADDRESS_LEN
    }

    /// Wraps raw bytes as an address; rejects any length other than 32.
    pub fn new(bytes: Vec<u8>) -> (r: Result<Address, HookError>)
        ensures
            bytes@.len() == ADDRESS_LEN <==> r is Ok,
            r matches Ok(a) ==> a@ == bytes@ && a.wf(),
            r matches Err(e) ==> e == HookError::InvalidAddressLength,
    {
        if bytes.len() == ADDRESS_LEN {
            Ok(Address { bytes })
        } else {
            Err(HookError::InvalidAddressLength)
        }
    }

    /// Byte-for-byte equality of two addresses.
    pub fn same_as(&self, other: &Address) -> (r: bool)
        ensures
            r == (self@ == other@),
    {
        if self.bytes.len() != other.bytes.len() {
            proof {
                assert(self@ != other@);
            }
            return false;
        }
        let n = self.bytes.len();
        let mut i: usize = 0;
        while i < n
            invariant
                n == self@.len(),
                n == other@.len(),
                i <= n,
                forall|j: int| 0 <= j < i ==> self@[j] == other@[j],
            decreases n - i,
        {
            if self.bytes[i] != other.bytes[i] {
                proof {
                    assert(self@[i as int] != other@[i as int]);
                }
                return false;
            }
            i += 1;
        }
        proof {
            assert(self@ =~= other@);
        }
        true
    }

    /// The raw bytes of the address.
    pub fn as_bytes(&self) -> (r: &Vec<u8>)
        ensures
            r@ == self@,
    {
        &self.bytes
    }

    /// An owned copy of the address.
    pub fn duplicate(&self) -> (r: Address)
        ensures
            r@ == self@,
            self.wf() ==> r.wf(),
    {
        let mut copy: Vec<u8> = Vec::new();
        let n = self.bytes.len();
        let mut i: usize = 0;
        while i < n
            invariant
                n == self@.len(),
                i <= n,
                copy@ == self@.take(i as int),
            decreases n - i,
        {
            copy.push(self.bytes[i]);
            proof {
                assert(copy@ =~= self@.take(i + 1));
            }
            i += 1;
        }
        proof {
            assert(copy@ =~= self@);
        }
        Address { bytes: copy }
    }

    /// An owned copy of the raw bytes.
    pub fn to_bytes_vec(&self) -> (r: Vec<u8>)
        ensures
            r@ == self@,
    {
        let copy = self.duplicate();
        let Address { bytes } = copy;
        bytes
    }
}

} // verus!
