//! Range samples and the normalisation of a revolution into angle order.

use vstd::prelude::*;

verus! {

/// One range reading as the sensor driver reports it.
///
/// `angle` (radians) and `distance` (metres) hold IEEE 754 binary32 bit
/// patterns.
#[derive(Clone, Copy, Debug, PartialEq, Eq, Structural)]
pub struct RawSample {
    pub angle: u32,
    pub distance: u32,
    pub quality: u8,
    pub valid: bool,
}

/// Position of a binary32 bit pattern in the IEEE 754 total order: negative
/// values come before positive ones, and within each sign the ordering is
/// by magnitude. For ordinary numbers this is the numeric order.
pub open spec fn angle_rank(angle: u32) -> int {
    if angle < 0x8000_0000 {
        angle + 0x8000_0000
    } else {
        0xffff_ffff - angle
    }
}

/// A revolution whose angles never decrease from one sample to the next.
pub open spec fn in_angle_order(samples: Seq<RawSample>) -> bool {
    forall|i: int, j: int|
        0 <= i <= j < samples.len() ==> angle_rank(samples[i].angle) <= angle_rank(
            samples[j].angle,
        )
}

/// The samples of `samples` that were taken at `angle`, in their order.
pub open spec fn with_angle(samples: Seq<RawSample>, angle: u32) -> Seq<RawSample>
    decreases samples.len(),
{
    if samples.len() == 0 {
        Seq::empty()
    } else if samples.last().angle == angle {
        with_angle(samples.drop_last(), angle).push(samples.last())
    } else {
        with_angle(samples.drop_last(), angle)
    }
}

/// `a` and `b` hold the same samples, and samples that share an angle stand
/// in the same relative order in both.
pub open spec fn same_angle_groups(a: Seq<RawSample>, b: Seq<RawSample>) -> bool {
    forall|angle: u32| #[trigger] with_angle(a, angle) == with_angle(b, angle)
}

/// `sorted` is `unsorted` stably sorted by ascending angle.
pub open spec fn is_angle_sort_of(sorted: Seq<RawSample>, unsorted: Seq<RawSample>) -> bool {
    &&& in_angle_order(sorted)
    &&& same_angle_groups(sorted, unsorted)
}

/// `samples` with the neighbours at `at - 1` and `at` exchanged.
spec fn exchanged(samples: Seq<RawSample>, at: int) -> Seq<RawSample> {
    samples.update(at - 1, samples[at]).update(at, samples[at - 1])
}

proof fn lemma_with_angle_concat(a: Seq<RawSample>, b: Seq<RawSample>, angle: u32)
    ensures
        with_angle(a + b, angle) == with_angle(a, angle) + with_angle(b, angle),
    decreases b.len(),
{
    if b.len() == 0 {
        assert(a + b =~= a);
        assert(with_angle(a, angle) + with_angle(b, angle) =~= with_angle(a, angle));
    } else {
        assert((a + b).drop_last() =~= a + b.drop_last());
        assert((a + b).last() == b.last());
        lemma_with_angle_concat(a, b.drop_last(), angle);
        if b.last().angle == angle {
            assert(with_angle(a, angle) + with_angle(b, angle) =~= (with_angle(a, angle)
                + with_angle(b.drop_last(), angle)).push(b.last()));
        }
    }
}

proof fn lemma_with_angle_pair(x: RawSample, y: RawSample, angle: u32)
    requires
        x.angle != y.angle,
    ensures
        with_angle(seq![x, y], angle) == with_angle(seq![y, x], angle),
{
    let xy = seq![x, y];
    let yx = seq![y, x];
    assert(xy.drop_last() =~= seq![x]);
    assert(yx.drop_last() =~= seq![y]);
    assert(seq![x].drop_last() =~= Seq::<RawSample>::empty());
    assert(seq![y].drop_last() =~= Seq::<RawSample>::empty());
    reveal_with_fuel(with_angle, 3);
    assert(with_angle(xy, angle) =~= with_angle(yx, angle));
}

/// Exchanging two neighbours taken at different angles disturbs no group of
/// samples that share an angle.
proof fn lemma_exchange_keeps_groups(samples: Seq<RawSample>, at: int)
    requires
        0 < at < samples.len(),
        samples[at - 1].angle != samples[at].angle,
    ensures
        same_angle_groups(exchanged(samples, at), samples),
{
    let head = samples.subrange(0, at - 1);
    let tail = samples.subrange(at + 1, samples.len() as int);
    let x = samples[at - 1];
    let y = samples[at];
    assert(samples =~= head + seq![x, y] + tail);
    assert(exchanged(samples, at) =~= head + seq![y, x] + tail);
    assert forall|angle: u32| #[trigger]
        with_angle(exchanged(samples, at), angle) == with_angle(samples, angle) by {
        lemma_with_angle_pair(x, y, angle);
        lemma_with_angle_concat(head, seq![x, y], angle);
        lemma_with_angle_concat(head + seq![x, y], tail, angle);
        lemma_with_angle_concat(head, seq![y, x], angle);
        lemma_with_angle_concat(head + seq![y, x], tail, angle);
    }
}

proof fn lemma_group_has_member(samples: Seq<RawSample>, angle: u32)
    requires
        with_angle(samples, angle).len() > 0,
    ensures
        exists|i: int| 0 <= i < samples.len() && samples[i].angle == angle,
    decreases samples.len(),
{
    if samples.last().angle == angle {
        assert(samples[samples.len() - 1].angle == angle);
    } else {
        lemma_group_has_member(samples.drop_last(), angle);
        let i = choose|i: int|
            0 <= i < samples.drop_last().len() && samples.drop_last()[i].angle == angle;
        assert(samples[i].angle == angle);
    }
}

proof fn lemma_last_angle_is_greatest(samples: Seq<RawSample>, angle: u32)
    requires
        in_angle_order(samples),
        with_angle(samples, angle).len() > 0,
    ensures
        samples.len() > 0,
        angle_rank(angle) <= angle_rank(samples.last().angle),
{
    lemma_group_has_member(samples, angle);
}

/// A revolution has one stable sort only: two revolutions in angle order
/// that agree on every group of samples sharing an angle are the same
/// revolution.
pub proof fn lemma_angle_sort_unique(a: Seq<RawSample>, b: Seq<RawSample>)
    requires
        in_angle_order(a),
        in_angle_order(b),
        same_angle_groups(a, b),
    ensures
        a == b,
    decreases a.len(),
{
    if a.len() == 0 {
        if b.len() > 0 {
            assert(with_angle(a, b.last().angle) == with_angle(b, b.last().angle));
        }
        assert(a =~= b);
    } else {
        let x = a.last();
        assert(with_angle(a, x.angle) == with_angle(b, x.angle));
        lemma_last_angle_is_greatest(b, x.angle);
        let y = b.last();
        assert(with_angle(a, y.angle) == with_angle(b, y.angle));
        lemma_last_angle_is_greatest(a, y.angle);
        assert(x.angle == y.angle);
        assert(with_angle(a, x.angle).last() == x);
        assert(with_angle(b, x.angle).last() == y);
        let shorter_a = a.drop_last();
        let shorter_b = b.drop_last();
        assert forall|angle: u32| #[trigger]
            with_angle(shorter_a, angle) == with_angle(shorter_b, angle) by {
            assert(with_angle(a, angle) == with_angle(b, angle));
            if angle == x.angle {
                assert(with_angle(shorter_a, angle) =~= with_angle(a, angle).drop_last());
                assert(with_angle(shorter_b, angle) =~= with_angle(b, angle).drop_last());
            }
        }
        lemma_angle_sort_unique(shorter_a, shorter_b);
        assert(a =~= shorter_a.push(x));
        assert(b =~= shorter_b.push(y));
    }
}

/// Sorting is idempotent: a stable sort of a revolution that is already a
/// stable sort gives that revolution back.
pub proof fn lemma_angle_sort_idempotent(
    unsorted: Seq<RawSample>,
    once: Seq<RawSample>,
    twice: Seq<RawSample>,
)
    requires
        is_angle_sort_of(once, unsorted),
        is_angle_sort_of(twice, once),
    ensures
        twice == once,
{
    lemma_angle_sort_unique(twice, once);
}

proof fn lemma_group_count(samples: Seq<RawSample>, sample: RawSample)
    ensures
        samples.to_multiset().count(sample) == with_angle(samples, sample.angle).to_multiset().count(
            sample,
        ),
    decreases samples.len(),
{
    broadcast use vstd::seq_lib::group_to_multiset_ensures;

    if samples.len() > 0 {
        let shorter = samples.drop_last();
        lemma_group_count(shorter, sample);
        assert(samples =~= shorter.push(samples.last()));
        assert(samples.to_multiset() =~= shorter.to_multiset().insert(samples.last()));
    }
}

/// Revolutions that agree on every group of samples sharing an angle hold
/// the same samples, each as often as the other.
pub proof fn lemma_angle_groups_same_samples(a: Seq<RawSample>, b: Seq<RawSample>)
    requires
        same_angle_groups(a, b),
    ensures
        a.to_multiset() == b.to_multiset(),
        a.len() == b.len(),
{
    broadcast use vstd::seq_lib::group_to_multiset_ensures;

    assert forall|sample: RawSample|
        a.to_multiset().count(sample) == b.to_multiset().count(sample) by {
        lemma_group_count(a, sample);
        lemma_group_count(b, sample);
        assert(with_angle(a, sample.angle) == with_angle(b, sample.angle));
    }
    assert(a.to_multiset() =~= b.to_multiset());
    assert(a.len() == a.to_multiset().len());
    assert(b.len() == b.to_multiset().len());
}

/// The rank by which samples are ordered, as a machine word.
pub fn angle_key(angle: u32) -> (key: u32)
    ensures
        key == angle_rank(angle),
{
    if angle < 0x8000_0000 {
        angle + 0x8000_0000
    } else {
        0xffff_ffff - angle
    }
}

/// Whether the sample at `at` must move in front of its left neighbour.
fn precedes_left(revolution: &Vec<RawSample>, at: usize) -> (moves: bool)
    requires
        0 < at < revolution@.len(),
    ensures
        moves == (angle_rank(revolution@[at as int].angle) < angle_rank(
            revolution@[at - 1].angle,
        )),
{
    angle_key(revolution[at].angle) < angle_key(revolution[at - 1].angle)
}

/// Sorts a revolution by ascending angle, keeping samples that share an
/// angle in the order in which they arrived.
///
/// The sensor delivers revolutions that are nearly sorted, so each sample
/// is moved left past the few neighbours that exceed it.
pub fn sort_by_angle(revolution: &mut Vec<RawSample>)
    ensures
        final(revolution)@.len() == old(revolution)@.len(),
        is_angle_sort_of(final(revolution)@, old(revolution)@),
        final(revolution)@.to_multiset() == old(revolution)@.to_multiset(),
        in_angle_order(old(revolution)@) ==> final(revolution)@ == old(revolution)@,
{
    let count: usize = revolution.len();
    let mut next: usize = 0;
    while next < count
        invariant
            next <= count,
            revolution@.len() == count,
            old(revolution)@.len() == count,
            same_angle_groups(revolution@, old(revolution)@),
            in_angle_order(old(revolution)@) ==> revolution@ == old(revolution)@,
            forall|i: int, j: int|
                0 <= i <= j < next ==> angle_rank(revolution@[i].angle) <= angle_rank(
                    revolution@[j].angle,
                ),
        decreases count - next,
    {
        let mut at: usize = next;
        while at > 0 && precedes_left(revolution, at)
            invariant
                at <= next < count,
                revolution@.len() == count,
                old(revolution)@.len() == count,
                same_angle_groups(revolution@, old(revolution)@),
                in_angle_order(old(revolution)@) ==> revolution@ == old(revolution)@,
                forall|i: int, j: int|
                    0 <= i <= j <= next && i != at && j != at ==> angle_rank(
                        revolution@[i].angle,
                    ) <= angle_rank(revolution@[j].angle),
                forall|j: int|
                    at < j <= next ==> angle_rank(revolution@[at as int].angle) < angle_rank(
                        revolution@[j].angle,
                    ),
            decreases at,
        {
            let ghost before = revolution@;
            let left = revolution[at - 1];
            let moved = revolution[at];
            revolution[at - 1] = moved;
            revolution[at] = left;
            proof {
                assert(revolution@ =~= exchanged(before, at as int));
                lemma_exchange_keeps_groups(before, at as int);
                assert forall|angle: u32| #[trigger]
                    with_angle(revolution@, angle) == with_angle(old(revolution)@, angle) by {
                    assert(with_angle(before, angle) == with_angle(old(revolution)@, angle));
                }
            }
            at = at - 1;
        }
        next = next + 1;
    }
    proof {
        lemma_angle_groups_same_samples(revolution@, old(revolution)@);
    }
}

} // verus!
