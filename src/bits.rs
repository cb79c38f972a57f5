//! Voter participation bitmaps, held in `bitvec`'s `BitVec`.

use vstd::prelude::*;
use bitvec::vec::BitVec;

verus! {

/// A bitmap with one bit per validator.  The bits live in a `BitVec`, whose
/// declaration as an outside type Verus refuses (its parameters are bound by
/// `bitvec`'s traits), so the field is hidden and read through `bits_of`.
#[verifier::external_body]
pub struct VoterBits {
    bits: BitVec,
}

/// The bits a `VoterBits` holds, first bit first.
pub uninterp spec fn bits_of(b: VoterBits) -> Seq<bool>;

/// Relies on `BitVec::with_capacity`: an empty bit vector.
#[verifier::external_body]
pub(crate) fn empty_bits(capacity: usize) -> (r: VoterBits)
    ensures
        bits_of(r) == Seq::<bool>::empty(),
{
    VoterBits { bits: BitVec::with_capacity(capacity) }
}

/// Relies on `BitVec::push`: appends one bit at the end.
#[verifier::external_body]
pub(crate) fn push_bit(b: &mut VoterBits, bit: bool)
    ensures
        bits_of(*final(b)) == bits_of(*old(b)).push(bit),
{
    b.bits.push(bit)
}

/// Relies on `BitVec::len`: the number of bits held.
#[verifier::external_body]
pub(crate) fn bit_count(b: &VoterBits) -> (r: usize)
    ensures
        r == bits_of(*b).len(),
{
    b.bits.len()
}

/// Relies on indexing a `BitVec` (through `BitSlice`'s `Index<usize>`): the
/// bit at a position within the length.
#[verifier::external_body]
pub(crate) fn bit_at(b: &VoterBits, i: usize) -> (r: bool)
    requires
        i < bits_of(*b).len(),
    ensures
        r == bits_of(*b)[i as int],
{
    b.bits[i]
}

/// Relies on `BitVec`'s `Clone`: the copy holds the same bits.
#[verifier::external_body]
pub(crate) fn copy_bits(b: &VoterBits) -> (r: VoterBits)
    ensures
        bits_of(r) == bits_of(*b),
{
    VoterBits { bits: b.bits.clone() }
}

impl VoterBits {
    /// A bitmap holding the given bits, in order.
    pub fn from_bools(v: &Vec<bool>) -> (r: VoterBits)
        ensures
            bits_of(r) == v@,
    {
        let mut r = empty_bits(v.len());
        let mut i: usize = 0;
        while i < v.len()
            invariant
                i <= v.len(),
                bits_of(r) == v@.take(i as int),
            decreases v.len() - i,
        {
            push_bit(&mut r, v[i]);
            assert(v@.take(i + 1) =~= v@.take(i as int).push(v@[i as int]));
            i = i + 1;
        }
        assert(v@.take(i as int) =~= v@);
        r
    }

    /// The bits held, in order.
    pub fn to_bools(&self) -> (r: Vec<bool>)
        ensures
            r@ == bits_of(*self),
    {
        let n = bit_count(self);
        let mut r: Vec<bool> = Vec::new();
        let mut i: usize = 0;
        while i < n
            invariant
                n == bits_of(*self).len(),
                i <= n,
                r@ == bits_of(*self).take(i as int),
            decreases n - i,
        {
            r.push(bit_at(self, i));
            assert(bits_of(*self).take(i + 1) =~= bits_of(*self).take(i as int).push(bits_of(*self)[i as int]));
            i = i + 1;
        }
        assert(bits_of(*self).take(i as int) =~= bits_of(*self));
        r
    }

    /// The number of bits held.
    pub fn len(&self) -> (r: usize)
        ensures
            r == bits_of(*self).len(),
    {
        bit_count(self)
    }
}

} // verus!
