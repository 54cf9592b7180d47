//! A register value as a set of bits, and the two ways to change it.

use vstd::prelude::*;

verus! {

/// Whether bit `i` of `v` is 1, bit 0 being the least significant.
pub open spec fn bit(v: u8, i: nat) -> bool {
    i < 8 && (v >> (i as u8)) & 1 == 1
}

/// The positions of the bits of `v` that are 1.
pub open spec fn bits_of(v: u8) -> Set<nat> {
    Set::new(|i: nat| bit(v, i))
}

/// The bits of `v | m` are those of `v` and those of `m`; the bits of
/// `v & !m` are those of `v` that are not bits of `m`.
pub proof fn lemma_bits_of_or_and_not(v: u8, m: u8)
    ensures
        bits_of(v | m) == bits_of(v).union(bits_of(m)),
        bits_of(v & !m) == bits_of(v).difference(bits_of(m)),
{
    assert(forall|i: u8|
        i < 8 ==> ((#[trigger] ((v | m) >> i)) & 1 == 1 <==> (v >> i) & 1 == 1 || (m >> i) & 1 == 1))
        by (bit_vector);
    assert(forall|i: u8|
        i < 8 ==> ((#[trigger] ((v & !m) >> i)) & 1 == 1 <==> (v >> i) & 1 == 1 && (m >> i) & 1 != 1))
        by (bit_vector);
    assert(bits_of(v | m) =~= bits_of(v).union(bits_of(m)));
    assert(bits_of(v & !m) =~= bits_of(v).difference(bits_of(m)));
}

/// A mask of one bit selects that bit.
pub proof fn lemma_single_bit_masks(v: u8)
    ensures
        (v & 0x01 != 0) == bit(v, 0),
        (v & 0x02 != 0) == bit(v, 1),
        (v & 0x04 != 0) == bit(v, 2),
        (v & 0x08 != 0) == bit(v, 3),
        (v & 0x10 != 0) == bit(v, 4),
        (v & 0x20 != 0) == bit(v, 5),
        (v & 0x40 != 0) == bit(v, 6),
        (v & 0x80 != 0) == bit(v, 7),
{
    assert((v & 0x01 != 0) == ((v >> 0u8) & 1 == 1) && (v & 0x02 != 0) == ((v >> 1u8) & 1 == 1) && (v
        & 0x04 != 0) == ((v >> 2u8) & 1 == 1) && (v & 0x08 != 0) == ((v >> 3u8) & 1 == 1) && (v
        & 0x10 != 0) == ((v >> 4u8) & 1 == 1) && (v & 0x20 != 0) == ((v >> 5u8) & 1 == 1) && (v
        & 0x40 != 0) == ((v >> 6u8) & 1 == 1) && (v & 0x80 != 0) == ((v >> 7u8) & 1 == 1))
        by (bit_vector);
}

/// A byte is known by its bits: two bytes with the same bits at 1 are equal.
pub proof fn lemma_bits_of_injective(a: u8, b: u8)
    requires
        bits_of(a) == bits_of(b),
    ensures
        a == b,
{
    assert forall|i: nat| i < 8 implies (bit(a, i) <==> bit(b, i)) by {
        assert(bits_of(a).contains(i) == bit(a, i));
        assert(bits_of(b).contains(i) == bit(b, i));
    }
    assert(bit(a, 0) == bit(b, 0) && bit(a, 1) == bit(b, 1));
    assert(bit(a, 2) == bit(b, 2) && bit(a, 3) == bit(b, 3));
    assert(bit(a, 4) == bit(b, 4) && bit(a, 5) == bit(b, 5));
    assert(bit(a, 6) == bit(b, 6) && bit(a, 7) == bit(b, 7));
    assert(a == b) by (bit_vector)
        requires
            (a >> 0u8) & 1 == 1 <==> (b >> 0u8) & 1 == 1,
            (a >> 1u8) & 1 == 1 <==> (b >> 1u8) & 1 == 1,
            (a >> 2u8) & 1 == 1 <==> (b >> 2u8) & 1 == 1,
            (a >> 3u8) & 1 == 1 <==> (b >> 3u8) & 1 == 1,
            (a >> 4u8) & 1 == 1 <==> (b >> 4u8) & 1 == 1,
            (a >> 5u8) & 1 == 1 <==> (b >> 5u8) & 1 == 1,
            (a >> 6u8) & 1 == 1 <==> (b >> 6u8) & 1 == 1,
            (a >> 7u8) & 1 == 1 <==> (b >> 7u8) & 1 == 1,
    ;
}

/// The value of one 8-bit register. Its view is the set of the positions of
/// its bits that are 1.
#[derive(Debug, Default, Clone, Copy, PartialEq, Eq, Structural)]
pub struct Config {
    pub bits: u8,
}

impl View for Config {
    type V = Set<nat>;

    open spec fn view(&self) -> Set<nat> {
        bits_of(self.bits)
    }
}

impl Config {
    /// The value with the bits of `flag` at 1 and every other bit as it was.
    pub open spec fn spec_with_bit_set(self, flag: u8) -> Config {
        Config { bits: self.bits | flag }
    }

    /// The value with the bits of `flag` at 0 and every other bit as it was.
    pub open spec fn spec_with_bit_cleared(self, flag: u8) -> Config {
        Config { bits: self.bits & !flag }
    }

    /// Forces the bits of `flag` to 1 and leaves the others alone.
    #[verifier::when_used_as_spec(spec_with_bit_set)]
    pub fn with_bit_set(self, flag: u8) -> (r: Config)
        ensures
            r == self.spec_with_bit_set(flag),
            r@ == self@.union(bits_of(flag)),
    {
        proof {
            lemma_bits_of_or_and_not(self.bits, flag);
        }
        Config { bits: self.bits | flag }
    }

    /// Forces the bits of `flag` to 0 and leaves the others alone.
    #[verifier::when_used_as_spec(spec_with_bit_cleared)]
    pub fn with_bit_cleared(self, flag: u8) -> (r: Config)
        ensures
            r == self.spec_with_bit_cleared(flag),
            r@ == self@.difference(bits_of(flag)),
    {
        proof {
            lemma_bits_of_or_and_not(self.bits, flag);
        }
        Config { bits: self.bits & !flag }
    }
}

/// Setting a flag and then clearing it leaves the flag's bits at 0, whatever
/// they were, and every other bit as it was; the result is that of clearing
/// alone.
pub proof fn lemma_set_then_clear(v: Config, flag: u8)
    ensures
        v.with_bit_set(flag).with_bit_cleared(flag)@ == v@.difference(bits_of(flag)),
        v.with_bit_set(flag).with_bit_cleared(flag) == v.with_bit_cleared(flag),
{
    let b = v.bits;
    assert((b | flag) & !flag == b & !flag) by (bit_vector);
    lemma_bits_of_or_and_not(b, flag);
}

/// Clearing a flag and then setting it leaves the flag's bits at 1, whatever
/// they were, and every other bit as it was; the result is that of setting
/// alone.
pub proof fn lemma_clear_then_set(v: Config, flag: u8)
    ensures
        v.with_bit_cleared(flag).with_bit_set(flag)@ == v@.union(bits_of(flag)),
        v.with_bit_cleared(flag).with_bit_set(flag) == v.with_bit_set(flag),
{
    let b = v.bits;
    assert((b & !flag) | flag == b | flag) by (bit_vector);
    lemma_bits_of_or_and_not(b, flag);
}

} // verus!
