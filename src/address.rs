use vstd::prelude::*;

verus! {

/// A 20-byte account or contract address on the base layer.
#[derive(Clone, Copy, Debug, PartialEq, Eq)]
pub struct Address {
    pub bytes: [u8; 20],
}

impl Address {
    /// Whether every byte of the address is zero: the sentinel for the native asset.
    pub open spec fn is_zero_spec(self) -> bool {
        forall|i: int| 0 <= i < 20 ==> #[trigger] self.bytes@[i] == 0
    }

    /// The 32-byte ABI word of the address: twelve zero bytes, then the address.
    pub open spec fn word(self) -> Seq<u8> {
        Seq::new(12, |_i: int| 0u8) + self.bytes@
    }

    pub fn new(bytes: [u8; 20]) -> (r: Address)
        ensures
            r.bytes == bytes,
    {
        Address { bytes }
    }

    /// The all-zero address.
    pub fn zero() -> (r: Address)
        ensures
            r.is_zero_spec(),
    {
        Address { bytes: [0u8; 20] }
    }

    pub fn is_zero(&self) -> (r: bool)
        ensures
            r == self.is_zero_spec(),
    {
        proof {
            vstd::array::array_len_matches_n(&self.bytes);
        }
        let mut i: usize = 0;
        while i < 20
            invariant
                0 <= i <= 20,
                self.bytes@.len() == 20,
                forall|j: int| 0 <= j < i ==> #[trigger] self.bytes@[j] == 0,
            decreases 20 - i,
        {
            if self.bytes[i] != 0 {
                return false;
            }
            i = i + 1;
        }
        true
    }

    /// The 32-byte ABI encoding of the address.
    pub fn to_word(&self) -> (r: Vec<u8>)
        ensures
            r@ == self.word(),
    {
        proof {
            vstd::array::array_len_matches_n(&self.bytes);
        }
        let mut out: Vec<u8> = Vec::new();
        let mut i: usize = 0;
        while i < 12
            invariant
                0 <= i <= 12,
                out@ =~= Seq::new(i as nat, |_j: int| 0u8),
            decreases 12 - i,
        {
            out.push(0u8);
            i = i + 1;
        }
        let mut k: usize = 0;
        while k < 20
            invariant
                0 <= k <= 20,
                self.bytes@.len() == 20,
                out@ =~= Seq::new(12, |_j: int| 0u8) + self.bytes@.subrange(0, k as int),
            decreases 20 - k,
        {
            out.push(self.bytes[k]);
            k = k + 1;
        }
        out
    }
}

} // verus!
