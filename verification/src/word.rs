//! 256-bit integers, fixed-width byte words, and the big-endian encoding between them.

use vstd::arithmetic::div_mod::{lemma_breakdown, lemma_fundamental_div_mod_converse, lemma_small_mod};
use vstd::prelude::*;

verus! {

/// An unsigned 256-bit integer: four 64-bit limbs, least significant first.
#[derive(Clone, Copy, Debug, PartialEq, Eq, PartialOrd, Ord, Hash)]
pub struct U256(pub [u64; 4]);

/// A 160-bit account address, as 20 bytes.
#[derive(Clone, Copy, Debug, PartialEq, Eq, PartialOrd, Ord, Hash)]
pub struct H160(pub [u8; 20]);

/// A 256-bit word, as 32 bytes.
#[derive(Clone, Copy, Debug, PartialEq, Eq, PartialOrd, Ord, Hash)]
pub struct H256(pub [u8; 32]);

/// Two to the power 64.
pub open spec fn limb_base() -> nat {
    0x1_0000_0000_0000_0000nat
}

/// Two to the power 256.
pub open spec fn word_modulus() -> nat {
    0x1_0000_0000_0000_0000_0000_0000_0000_0000_0000_0000_0000_0000_0000_0000_0000_0000nat
}

impl View for U256 {
    type V = nat;

    /// The number that the limbs stand for.
    open spec fn view(&self) -> nat {
        (self.0[0] as nat) + limb_base() * ((self.0[1] as nat) + limb_base() * ((self.0[2] as nat)
            + limb_base() * (self.0[3] as nat)))
    }
}

impl View for H160 {
    type V = Seq<u8>;

    open spec fn view(&self) -> Seq<u8> {
        self.0@
    }
}

impl View for H256 {
    type V = Seq<u8>;

    open spec fn view(&self) -> Seq<u8> {
        self.0@
    }
}

/// The number that `bytes` spell out, most significant byte first.
pub open spec fn be_value(bytes: Seq<u8>) -> nat
    decreases bytes.len(),
{
    if bytes.len() == 0 {
        0
    } else {
        be_value(bytes.drop_last()) * 256 + bytes.last() as nat
    }
}

/// The lowest `len` bytes of `n`, most significant byte first.
pub open spec fn be_bytes(n: nat, len: nat) -> Seq<u8>
    decreases len,
{
    if len == 0 {
        Seq::empty()
    } else {
        be_bytes(n / 256, (len - 1) as nat).push((n % 256) as u8)
    }
}

/// Whether `a` comes before `b` when byte strings are ordered by their first
/// difference, a proper prefix before what it is a prefix of.
pub open spec fn bytes_below(a: Seq<u8>, b: Seq<u8>) -> bool
    decreases a.len(),
{
    if b.len() == 0 {
        false
    } else if a.len() == 0 {
        true
    } else if a[0] != b[0] {
        a[0] < b[0]
    } else {
        bytes_below(a.subrange(1, a.len() as int), b.subrange(1, b.len() as int))
    }
}

/// 256 to the power `len`.
pub open spec fn byte_range(len: nat) -> nat
    decreases len,
{
    if len == 0 {
        1
    } else {
        256 * byte_range((len - 1) as nat)
    }
}

impl U256 {
    /// The integer zero.
    pub fn zero() -> (r: U256)
        ensures
            r@ == 0,
    {
        U256([0, 0, 0, 0])
    }

    /// The 32-byte word that holds this integer, most significant byte first.
    pub fn to_word(&self) -> (h: H256)
        ensures
            h@ == be_bytes(self@, 32),
            h@.len() == 32,
            be_value(h@) == self@,
    {
        proof {
            lemma_storage_round_trip(*self, *self);
        }
        u256_to_h256(self)
    }

    /// Whether both integers are the same number.
    pub fn same(&self, other: &U256) -> (r: bool)
        ensures
            r == (self@ == other@),
    {
        proof {
            lemma_limbs_decide(*self, *other);
        }
        self.0[0] == other.0[0] && self.0[1] == other.0[1] && self.0[2] == other.0[2] && self.0[3]
            == other.0[3]
    }
}

impl H160 {
    /// Whether both addresses hold the same bytes.
    pub fn same(&self, other: &H160) -> (r: bool)
        ensures
            r == (self@ == other@),
    {
        let mut i: usize = 0;
        while i < 20
            invariant
                i <= 20,
                forall|j: int| 0 <= j < i ==> self.0[j] == other.0[j],
            decreases 20 - i,
        {
            if self.0[i] != other.0[i] {
                return false;
            }
            i = i + 1;
        }
        assert(self@ =~= other@);
        true
    }
}

impl H256 {
    /// The integer that this word spells out, most significant byte first.
    pub fn to_uint(&self) -> (v: U256)
        ensures
            v@ == be_value(self@),
            be_bytes(v@, 32) == self@,
    {
        proof {
            lemma_bytes_of_value(self@);
        }
        h256_to_u256(self)
    }

    /// Whether both words hold the same bytes.
    pub fn same(&self, other: &H256) -> (r: bool)
        ensures
            r == (self@ == other@),
    {
        let mut i: usize = 0;
        while i < 32
            invariant
                i <= 32,
                forall|j: int| 0 <= j < i ==> self.0[j] == other.0[j],
            decreases 32 - i,
        {
            if self.0[i] != other.0[i] {
                return false;
            }
            i = i + 1;
        }
        assert(self@ =~= other@);
        true
    }
}

/// Two integers are the same number exactly when their limbs agree.
pub proof fn lemma_limbs_decide(a: U256, b: U256)
    ensures
        (a@ == b@) <==> (a.0[0] == b.0[0] && a.0[1] == b.0[1] && a.0[2] == b.0[2] && a.0[3]
            == b.0[3]),
{
    let base = limb_base() as int;
    let a1 = (a.0[1] as int) + base * ((a.0[2] as int) + base * (a.0[3] as int));
    let b1 = (b.0[1] as int) + base * ((b.0[2] as int) + base * (b.0[3] as int));
    let a2 = (a.0[2] as int) + base * (a.0[3] as int);
    let b2 = (b.0[2] as int) + base * (b.0[3] as int);
    if a@ == b@ {
        lemma_digit_split(a.0[0] as int, a1, b.0[0] as int, b1);
        lemma_digit_split(a.0[1] as int, a2, b.0[1] as int, b2);
        lemma_digit_split(a.0[2] as int, a.0[3] as int, b.0[2] as int, b.0[3] as int);
    }
}

/// A number below the limb base plus a multiple of the base has only one such split.
proof fn lemma_digit_split(lo_a: int, hi_a: int, lo_b: int, hi_b: int)
    requires
        0 <= lo_a < limb_base(),
        0 <= lo_b < limb_base(),
        lo_a + limb_base() * hi_a == lo_b + limb_base() * hi_b,
    ensures
        lo_a == lo_b,
        hi_a == hi_b,
{
    let base = limb_base() as int;
    assert(base * hi_a - base * hi_b == base * (hi_a - hi_b)) by (nonlinear_arith);
    assert(base * (hi_a - hi_b) == lo_b - lo_a);
    assert(hi_a - hi_b == 0) by (nonlinear_arith)
        requires
            base * (hi_a - hi_b) == lo_b - lo_a,
            -base < lo_b - lo_a < base,
            base > 0,
    ;
}

/// The fixed-width word that holds `v`, most significant byte first.
///
/// Trusted: calls `evm::interpreter::utils::u256_to_h256`, which writes the integer's four
/// limbs into 32 bytes in big-endian order. The contract says that the word is the
/// 32-byte big-endian encoding of the integer.
#[verifier::external_body]
pub(crate) fn u256_to_h256(v: &U256) -> (h: H256)
    ensures
        h@ == be_bytes(v@, 32),
{
    H256(evm::interpreter::utils::u256_to_h256(primitive_types::U256(v.0)).0)
}

/// The integer that the word `h` spells out, most significant byte first.
///
/// Trusted: calls `evm::interpreter::utils::h256_to_u256`, which reads the 32 bytes as
/// one big-endian integer. The contract says that the result is that integer.
#[verifier::external_body]
pub(crate) fn h256_to_u256(h: &H256) -> (v: U256)
    ensures
        v@ == be_value(h@),
{
    U256(evm::interpreter::utils::h256_to_u256(primitive_types::H256(h.0)).0)
}

/// Reading back the `len` lowest bytes of `n` gives `n` modulo 256 to the power `len`.
pub proof fn lemma_value_of_bytes(n: nat, len: nat)
    ensures
        be_bytes(n, len).len() == len,
        be_value(be_bytes(n, len)) == n % byte_range(len),
        byte_range(len) > 0,
    decreases len,
{
    if len == 0 {
        assert(n % 1 == 0);
    } else {
        let rest = be_bytes(n / 256, (len - 1) as nat);
        let low = (n % 256) as u8;
        lemma_value_of_bytes(n / 256, (len - 1) as nat);
        assert(rest.push(low).drop_last() =~= rest);
        let range = byte_range((len - 1) as nat);
        lemma_breakdown(n as int, 256, range as int);
        assert(256 * ((n / 256) % range) == ((n / 256) % range) * 256) by (nonlinear_arith);
    }
}

/// Writing out the number that `bytes` spell gives `bytes` again.
pub proof fn lemma_bytes_of_value(bytes: Seq<u8>)
    ensures
        be_bytes(be_value(bytes), bytes.len()) == bytes,
    decreases bytes.len(),
{
    if bytes.len() == 0 {
        assert(be_bytes(be_value(bytes), 0) =~= bytes);
    } else {
        let init = bytes.drop_last();
        let value = be_value(bytes);
        lemma_bytes_of_value(init);
        lemma_fundamental_div_mod_converse(
            value as int,
            256,
            be_value(init) as int,
            bytes.last() as int,
        );
        assert(init.push(bytes.last()) =~= bytes);
    }
}

/// Every 256-bit integer is below two to the power 256, which is 256 to the power 32.
pub proof fn lemma_word_range(v: U256)
    ensures
        v@ < word_modulus(),
        byte_range(32) == word_modulus(),
{
    let base = limb_base() as int;
    let l0 = v.0[0] as int;
    let l1 = v.0[1] as int;
    let l2 = v.0[2] as int;
    let l3 = v.0[3] as int;
    assert(base * l3 <= base * (base - 1)) by (nonlinear_arith)
        requires
            0 <= l3 <= base - 1,
            base > 0,
    ;
    let top = l2 + base * l3;
    assert(base * top <= base * (base * base - 1)) by (nonlinear_arith)
        requires
            0 <= top <= base * base - 1,
            base > 0,
    ;
    let upper = l1 + base * top;
    assert(base * upper <= base * (base * base * base - 1)) by (nonlinear_arith)
        requires
            0 <= upper <= base * base * base - 1,
            base > 0,
    ;
    assert(base * base * base * base
        == 0x1_0000_0000_0000_0000_0000_0000_0000_0000_0000_0000_0000_0000_0000_0000_0000_0000int)
        by (nonlinear_arith)
        requires
            base == 0x1_0000_0000_0000_0000int,
    ;
    lemma_byte_range_eight(0);
    lemma_byte_range_eight(8);
    lemma_byte_range_eight(16);
    lemma_byte_range_eight(24);
    assert(byte_range(0) == 1);
    assert(byte_range(32) == base * (base * (base * base))) by (nonlinear_arith)
        requires
            byte_range(8) == base * 1,
            byte_range(16) == base * byte_range(8),
            byte_range(24) == base * byte_range(16),
            byte_range(32) == base * byte_range(24),
    ;
    assert(base * (base * (base * base)) == base * base * base * base) by (nonlinear_arith);
}

/// Eight more bytes multiply the range by two to the power 64.
proof fn lemma_byte_range_eight(len: nat)
    ensures
        byte_range(len + 8) == limb_base() * byte_range(len),
{
    reveal_with_fuel(byte_range, 9);
    let r = byte_range(len) as int;
    assert(256 * (256 * (256 * (256 * (256 * (256 * (256 * (256 * r))))))) == 0x1_0000_0000_0000_0000int
        * r) by (nonlinear_arith);
}

/// A key and a value, taken from their integer form to the fixed-width word encoding
/// and back, are the key and the value that went in.
pub proof fn lemma_storage_round_trip(key: U256, value: U256)
    ensures
        be_value(be_bytes(key@, 32)) == key@,
        be_value(be_bytes(value@, 32)) == value@,
        be_bytes(key@, 32).len() == 32,
        be_bytes(value@, 32).len() == 32,
{
    lemma_word_range(key);
    lemma_word_range(value);
    lemma_value_of_bytes(key@, 32);
    lemma_value_of_bytes(value@, 32);
    lemma_small_mod(key@, word_modulus());
    lemma_small_mod(value@, word_modulus());
}

} // verus!
