use vstd::prelude::*;

verus! {

/// 2^128, the weight of the high half of a 256-bit word.
pub open spec fn half_base() -> nat {
    0x1_0000_0000_0000_0000_0000_0000_0000_0000nat
}

/// The largest value a 256-bit unsigned word holds.
pub open spec fn u256_max() -> nat {
    (half_base() * half_base() - 1) as nat
}

/// 256 to the power `k`.
pub open spec fn pow256(k: nat) -> nat
    decreases k,
{
    if k == 0 {
        1
    } else {
        256 * pow256((k - 1) as nat)
    }
}

/// Byte `k` (counted from the least significant) of the number `v`.
pub open spec fn byte_of(v: nat, k: nat) -> u8 {
    ((v / pow256(k)) % 256) as u8
}

/// The sixteen big-endian bytes of a 128-bit number.
pub open spec fn be_bytes_u128(x: u128) -> Seq<u8> {
    Seq::new(16, |i: int| byte_of(x as nat, (15 - i) as nat))
}

/// An unsigned 256-bit integer, kept as two 128-bit halves.
#[derive(Clone, Copy, Debug, PartialEq, Eq, Structural)]
pub struct U256 {
    pub hi: u128,
    pub lo: u128,
}

impl U256 {
    /// The number this word stands for.
    pub open spec fn value(self) -> nat {
        self.hi as nat * half_base() + self.lo as nat
    }

    /// The 32-byte big-endian form of the word, as the contract ABI writes it.
    pub open spec fn be_word(self) -> Seq<u8> {
        be_bytes_u128(self.hi) + be_bytes_u128(self.lo)
    }

    pub fn zero() -> (r: U256)
        ensures
            r.value() == 0,
    {
        U256 { hi: 0, lo: 0 }
    }

    pub fn from_u64(v: u64) -> (r: U256)
        ensures
            r == (U256 { hi: 0, lo: v as u128 }),
            r.value() == v as nat,
    {
        U256 { hi: 0, lo: v as u128 }
    }

    pub fn from_u128(v: u128) -> (r: U256)
        ensures
            r.value() == v as nat,
    {
        U256 { hi: 0, lo: v }
    }

    /// The word with every bit set.
    pub open spec fn max_spec() -> U256 {
        U256 { hi: u128::MAX, lo: u128::MAX }
    }

    /// The maximum representable value, 2^256 - 1.
    pub fn max_value() -> (r: U256)
        ensures
            r == U256::max_spec(),
            r.value() == u256_max(),
    {
        proof {
            lemma_max_value();
        }
        U256 { hi: u128::MAX, lo: u128::MAX }
    }

    /// Addition that fails exactly when the sum does not fit in 256 bits.
    pub fn checked_add(&self, other: &U256) -> (r: Option<U256>)
        ensures
            r.is_some() <==> self.value() + other.value() <= u256_max(),
            r matches Some(s) ==> s.value() == self.value() + other.value(),
    {
        let lo: u128;
        let carry: u128;
        if other.lo <= u128::MAX - self.lo {
            lo = self.lo + other.lo;
            carry = 0;
        } else {
            lo = self.lo - (u128::MAX - other.lo) - 1;
            carry = 1;
        }
        assert(self.lo + other.lo == carry * half_base() + lo);
        let ghost a = self.hi as nat;
        let ghost b = other.hi as nat;
        let ghost hb = half_base();
        assert(self.value() + other.value() == (a + b + carry) * hb + lo) by (nonlinear_arith)
            requires
                self.value() == a * hb + self.lo,
                other.value() == b * hb + other.lo,
                self.lo + other.lo == carry * hb + lo,
        ;
        if self.hi <= u128::MAX - other.hi && carry <= u128::MAX - self.hi - other.hi {
            let r = U256 { hi: self.hi + other.hi + carry, lo };
            assert((a + b + carry) * hb + lo <= hb * hb - 1) by (nonlinear_arith)
                requires
                    a + b + carry <= hb - 1,
                    lo < hb,
            ;
            Some(r)
        } else {
            assert((a + b + carry) * hb + lo > hb * hb - 1) by (nonlinear_arith)
                requires
                    a + b + carry >= hb,
                    lo >= 0,
            ;
            None
        }
    }

    /// The 32-byte big-endian encoding of the word.
    pub fn to_be_word(&self) -> (r: Vec<u8>)
        ensures
            r@ == self.be_word(),
    {
        let mut out: Vec<u8> = Vec::new();
        push_be_u128(&mut out, self.hi);
        push_be_u128(&mut out, self.lo);
        assert(out@ =~= self.be_word());
        out
    }
}

/// The word with every bit set stands for 2^256 - 1.
pub proof fn lemma_max_value()
    ensures
        U256::max_spec().value() == u256_max(),
{
    let m = U256::max_spec();
    assert(m.value() == u256_max()) by (nonlinear_arith)
        requires
            m.hi as nat == half_base() - 1,
            m.lo as nat == half_base() - 1,
    ;
}

pub proof fn lemma_pow256_positive(k: nat)
    ensures
        pow256(k) > 0,
    decreases k,
{
    if k > 0 {
        lemma_pow256_positive((k - 1) as nat);
    }
}

/// Appends the sixteen big-endian bytes of `x` to `out`.
pub fn push_be_u128(out: &mut Vec<u8>, x: u128)
    ensures
        final(out)@ == old(out)@ + be_bytes_u128(x),
{
    let ghost start = out@;
    let mut p: u128 = 0x0100_0000_0000_0000_0000_0000_0000_0000u128;
    let mut i: usize = 0;
    proof {
        reveal_with_fuel(pow256, 16);
        assert(pow256(15) == 0x0100_0000_0000_0000_0000_0000_0000_0000nat);
    }
    while i < 16
        invariant
            0 <= i <= 16,
            p > 0,
            i < 16 ==> p as nat == pow256((15 - i) as nat),
            out@.len() == start.len() + i,
            forall|j: int| 0 <= j < start.len() ==> out@[j] == start[j],
            forall|j: int|
                start.len() <= j < out@.len() ==> #[trigger] out@[j] == byte_of(
                    x as nat,
                    (15 - (j - start.len())) as nat,
                ),
        decreases 16 - i,
    {
        out.push(((x / p) % 256) as u8);
        proof {
            assert(out@[start.len() + i] == byte_of(x as nat, (15 - i) as nat));
        }
        if i < 15 {
            proof {
                let e = (14 - i) as nat;
                assert(pow256(e + 1) == 256 * pow256(e));
                lemma_pow256_positive(e);
                vstd::arithmetic::div_mod::lemma_div_multiples_vanish(pow256(e) as int, 256);
            }
            p = p / 256;
        }
        i = i + 1;
    }
    assert(out@ =~= start + be_bytes_u128(x));
}

} // verus!
