//! Counting samples into the buckets of a linear histogram.
//!
//! A histogram divides the range of its samples into `bins` buckets of equal
//! width. Where a sample falls is a matter of floating-point arithmetic, so
//! it comes from outside as the sample's position in units of the bucket
//! width, rounded down. Which bucket then counts the sample, and how often
//! each bucket is hit, is decided here: positions are clamped into the
//! histogram, so that rounding at the edges can neither lose a sample nor
//! count one twice, and the largest sample lands in the last bucket.
//!
//! The smallest and the largest sample are found here as well. Samples are
//! 64-bit floats held by their bit patterns, ordered as IEEE 754 orders all
//! floats: by sign and magnitude, negative zero below positive zero, and
//! each NaN beyond the infinity of its sign.
//!
//! Last, the histogram is put together here: without samples or without
//! buckets it is empty, with both extremes zero, whatever else is at hand.

use vstd::prelude::*;
use crate::proto::HistogramProto;

verus! {

/// The bucket that counts a sample at position `raw`.
pub open spec fn clamped(raw: i64, bins: usize) -> int
    recommends
        bins > 0,
{
    if raw < 0 {
        0
    } else if raw >= bins {
        bins - 1
    } else {
        raw as int
    }
}

/// How many of the samples at `positions` the bucket `bucket` counts.
pub open spec fn occupancy(positions: Seq<i64>, bins: usize, bucket: int) -> nat
    decreases positions.len(),
{
    if positions.len() == 0 {
        0
    } else {
        occupancy(positions.drop_last(), bins, bucket) + if clamped(positions.last(), bins)
            == bucket {
            1nat
        } else {
            0nat
        }
    }
}

/// The sum of all counts.
pub open spec fn total(counts: Seq<u64>) -> nat
    decreases counts.len(),
{
    if counts.len() == 0 {
        0
    } else {
        total(counts.drop_last()) + counts.last() as nat
    }
}

proof fn lemma_total_update(counts: Seq<u64>, at: int, count: u64)
    requires
        0 <= at < counts.len(),
    ensures
        total(counts.update(at, count)) == total(counts) - counts[at] + count,
        counts[at] <= total(counts),
    decreases counts.len(),
{
    let last = counts.len() - 1;
    if at == last {
        assert(counts.update(at, count).drop_last() =~= counts.drop_last());
    } else {
        lemma_total_update(counts.drop_last(), at, count);
        assert(counts.update(at, count).drop_last() =~= counts.drop_last().update(at, count));
    }
}

proof fn lemma_total_of_zeros(counts: Seq<u64>)
    requires
        forall|i: int| 0 <= i < counts.len() ==> counts[i] == 0,
    ensures
        total(counts) == 0,
    decreases counts.len(),
{
    if counts.len() > 0 {
        lemma_total_of_zeros(counts.drop_last());
    }
}

fn clamp_index(raw: i64, bins: usize) -> (bucket: usize)
    requires
        bins > 0,
    ensures
        bucket == clamped(raw, bins),
        bucket < bins,
{
    if raw < 0 {
        0
    } else if raw as u64 >= bins as u64 {
        bins - 1
    } else {
        raw as usize
    }
}

/// Counts samples into `bins` buckets, given the position of each sample.
///
/// Without samples or without buckets the result is empty. Otherwise every
/// sample is counted exactly once, in the bucket at its position, or in the
/// first or last bucket if its position lies outside the histogram.
pub fn bucket_counts(positions: &[i64], bins: usize) -> (counts: Vec<u64>)
    ensures
        counts@.len() == (if positions@.len() == 0 {
            0
        } else {
            bins as int
        }),
        forall|bucket: int|
            0 <= bucket < counts@.len() ==> counts@[bucket] == occupancy(
                positions@,
                bins,
                bucket,
            ),
        total(counts@) == (if bins == 0 {
            0
        } else {
            positions@.len()
        }),
{
    if positions.len() == 0 || bins == 0 {
        return Vec::new();
    }
    let mut counts: Vec<u64> = Vec::new();
    while counts.len() < bins
        invariant
            counts@.len() <= bins,
            forall|i: int| 0 <= i < counts@.len() ==> counts@[i] == 0,
        decreases bins - counts@.len(),
    {
        counts.push(0);
    }
    proof {
        lemma_total_of_zeros(counts@);
    }
    let mut i: usize = 0;
    while i < positions.len()
        invariant
            bins > 0,
            i <= positions.len(),
            counts@.len() == bins,
            total(counts@) == i,
            forall|bucket: int|
                0 <= bucket < bins ==> counts@[bucket] == #[trigger] occupancy(
                    positions@.take(i as int),
                    bins,
                    bucket,
                ),
        decreases positions.len() - i,
    {
        let bucket = clamp_index(positions[i], bins);
        let count = counts[bucket];
        proof {
            lemma_total_update(counts@, bucket as int, count);
            lemma_total_update(counts@, bucket as int, (count + 1) as u64);
            let seen = positions@.take(i as int);
            let next = positions@.take(i + 1);
            assert(next.drop_last() =~= seen);
            assert forall|other: int| 0 <= other < bins implies occupancy(next, bins, other)
                == occupancy(seen, bins, other) + if other == bucket {
                1nat
            } else {
                0nat
            } by {}
        }
        counts.set(bucket, count + 1);
        i += 1;
    }
    proof {
        assert(positions@.take(i as int) =~= positions@);
    }
    counts
}

/// The place of a 64-bit float, given by its bits, in the total order of
/// IEEE 754. Floats compare as their places do.
pub open spec fn total_order_key(bits: u64) -> int {
    if bits < 0x8000_0000_0000_0000 {
        bits as int
    } else {
        0x7fff_ffff_ffff_ffff - bits
    }
}

fn order_key(bits: u64) -> (key: i64)
    ensures
        key == total_order_key(bits),
{
    if bits < 0x8000_0000_0000_0000 {
        bits as i64
    } else {
        -1i64 - ((bits - 0x8000_0000_0000_0000) as i64)
    }
}

/// The smallest and the largest of `samples` in the total order, or `None`
/// if there are no samples.
pub fn sample_range(samples: &[u64]) -> (range: Option<(u64, u64)>)
    ensures
        range is None <==> samples@.len() == 0,
        range matches Some((min, max)) ==> {
            &&& samples@.contains(min)
            &&& samples@.contains(max)
            &&& forall|i: int|
                0 <= i < samples@.len() ==> total_order_key(min) <= total_order_key(
                    #[trigger] samples@[i],
                ) <= total_order_key(max)
        },
{
    if samples.len() == 0 {
        return None;
    }
    let mut min = samples[0];
    let mut max = samples[0];
    let mut i: usize = 1;
    while i < samples.len()
        invariant
            1 <= i <= samples.len(),
            samples@.contains(min),
            samples@.contains(max),
            forall|j: int|
                0 <= j < i ==> total_order_key(min) <= total_order_key(#[trigger] samples@[j])
                    <= total_order_key(max),
        decreases samples.len() - i,
    {
        let sample = samples[i];
        if order_key(sample) < order_key(min) {
            min = sample;
        }
        if order_key(sample) > order_key(max) {
            max = sample;
        }
        i += 1;
    }
    Some((min, max))
}

/// Puts a histogram together from the range of the samples, the right edge
/// of each bucket and the count of each bucket, all 64-bit floats given by
/// their bits.
///
/// Without samples, which have no range, or without buckets the histogram is
/// empty: both extremes are zero and there are neither edges nor counts,
/// whatever `limits` and `counts` hold. Otherwise the histogram holds what
/// it is given, one edge and one count for each bucket.
pub fn assemble_histogram(
    range: Option<(u64, u64)>,
    bins: usize,
    limits: Vec<u64>,
    counts: Vec<u64>,
) -> (histogram: HistogramProto)
    requires
        range is Some && bins > 0 ==> limits@.len() == bins && counts@.len() == bins,
    ensures
        range is None || bins == 0 ==> histogram.min == 0 && histogram.max == 0
            && histogram.bucket_limit@.len() == 0 && histogram.bucket@.len() == 0,
        range matches Some((min, max)) ==> (bins > 0 ==> histogram.min == min && histogram.max
            == max && histogram.bucket_limit@ == limits@ && histogram.bucket@ == counts@),
{
    match range {
        Some((min, max)) if bins > 0 => HistogramProto {
            min,
            max,
            bucket_limit: limits,
            bucket: counts,
        },
        _ => HistogramProto { min: 0, max: 0, bucket_limit: Vec::new(), bucket: Vec::new() },
    }
}

} // verus!
