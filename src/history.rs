//! Fixed-capacity histories, held in `circular_buffer`'s `CircularBuffer`.

use vstd::prelude::*;
use circular_buffer::CircularBuffer;
use crate::bits::{VoterBits, bits_of};
use crate::block::BlockDetail;

verus! {

/// How many of the most recent records a history keeps.
pub const MAX_HISTORY: usize = 50;

#[verifier::external_type_specification]
#[verifier::external_body]
#[verifier::reject_recursive_types(T)]
pub struct ExCircularBuffer<const N: usize, T>(CircularBuffer<N, T>);

/// `s` after appending `x` to a history: once it holds `MAX_HISTORY`
/// records the oldest one leaves.
pub open spec fn bounded_push<A>(s: Seq<A>, x: A) -> Seq<A> {
    if s.len() >= MAX_HISTORY {
        s.drop_first().push(x)
    } else {
        s.push(x)
    }
}

/// A history that started empty after `xs` was appended, one at a time.
pub open spec fn history_after<A>(xs: Seq<A>) -> Seq<A>
    decreases xs.len(),
{
    if xs.len() == 0 {
        Seq::empty()
    } else {
        bounded_push(history_after(xs.drop_last()), xs.last())
    }
}

/// Appending to a history adds one record until it is full and keeps the
/// length from then on, whatever is appended.
pub proof fn lemma_bounded_push_len<A, B>(s: Seq<A>, x: A, t: Seq<B>, y: B)
    requires
        s.len() == t.len(),
    ensures
        bounded_push(s, x).len() == bounded_push(t, y).len(),
        bounded_push(s, x).len() == (if s.len() >= MAX_HISTORY { s.len() } else { s.len() + 1 }),
{
}

/// After `N >= 1` records are appended to an empty history, it holds
/// `min(N, MAX_HISTORY)` of them: the last ones, in the order appended.
pub proof fn lemma_bounded_history<A>(xs: Seq<A>)
    ensures
        history_after(xs).len() == (if xs.len() <= MAX_HISTORY { xs.len() } else { MAX_HISTORY as nat }),
        history_after(xs) == xs.subrange(
            if xs.len() <= MAX_HISTORY { 0 } else { xs.len() - MAX_HISTORY },
            xs.len() as int,
        ),
    decreases xs.len(),
{
    if xs.len() == 0 {
        assert(xs.subrange(0, 0) =~= Seq::<A>::empty());
    } else {
        let p = xs.drop_last();
        lemma_bounded_history(p);
        if p.len() < MAX_HISTORY {
            assert(p.subrange(0, p.len() as int).push(xs.last()) =~= xs.subrange(0, xs.len() as int));
        } else {
            assert(p.subrange(p.len() - MAX_HISTORY, p.len() as int).drop_first().push(xs.last())
                =~= xs.subrange(xs.len() - MAX_HISTORY, xs.len() as int));
        }
    }
}

/// The block summaries a history holds, oldest first.
pub uninterp spec fn blocks_held(b: CircularBuffer<MAX_HISTORY, BlockDetail>) -> Seq<BlockDetail>;

/// The voter bitmaps a history holds, oldest first.
pub uninterp spec fn voters_held(b: CircularBuffer<MAX_HISTORY, VoterBits>) -> Seq<Seq<bool>>;

/// Relies on `CircularBuffer::new`: an empty buffer.
#[verifier::external_body]
pub(crate) fn new_block_history() -> (r: CircularBuffer<MAX_HISTORY, BlockDetail>)
    ensures
        blocks_held(r) == Seq::<BlockDetail>::empty(),
{
    CircularBuffer::new()
}

/// Relies on `CircularBuffer::new`: an empty buffer.
#[verifier::external_body]
pub(crate) fn new_voter_history() -> (r: CircularBuffer<MAX_HISTORY, VoterBits>)
    ensures
        voters_held(r) == Seq::<Seq<bool>>::empty(),
{
    CircularBuffer::new()
}

/// Relies on `CircularBuffer::push_back`: appends at the back, and when the
/// buffer is full first drops the front item.
#[verifier::external_body]
pub(crate) fn push_block(b: &mut CircularBuffer<MAX_HISTORY, BlockDetail>, x: BlockDetail)
    ensures
        blocks_held(*final(b)) == bounded_push(blocks_held(*old(b)), x),
{
    b.push_back(x)
}

/// Relies on `CircularBuffer::push_back`: appends at the back, and when the
/// buffer is full first drops the front item.
#[verifier::external_body]
pub(crate) fn push_voters(b: &mut CircularBuffer<MAX_HISTORY, VoterBits>, x: VoterBits)
    ensures
        voters_held(*final(b)) == bounded_push(voters_held(*old(b)), bits_of(x)),
{
    b.push_back(x)
}

} // verus!
