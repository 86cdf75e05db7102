//! Noise waves and their blend into one scalar per environmental axis.
//!
//! A wave is a seeded noise generator with a frequency and an amplitude. The
//! generator itself works in floating point and is evaluated by the caller;
//! this module fixes where each wave is evaluated and how the raw outputs of
//! the waves of one axis are blended.

use vstd::prelude::*;

verus! {

/// One noise wave of an axis. `frequency` and `amplitude` are fixed-point
/// values in millionths; `seed` seeds the wave's noise generator.
#[derive(Clone, Copy, Debug, PartialEq, Eq, Structural)]
pub struct MapGenerationWave {
    pub frequency: u32,
    pub amplitude: u32,
    pub seed: u32,
}

impl MapGenerationWave {
    /// The point of noise space at which the wave is evaluated for the cell
    /// `(x, y)`: both cell coordinates scaled by the frequency, in millionths.
    pub fn sample_point(&self, x: u32, y: u32) -> (point: (u64, u64))
        ensures
            point.0 == x * self.frequency,
            point.1 == y * self.frequency,
    {
        let frequency = self.frequency;
        assert(x * frequency <= u64::MAX && y * frequency <= u64::MAX) by (nonlinear_arith)
            requires
                x <= u32::MAX,
                y <= u32::MAX,
                frequency <= u32::MAX,
        ;
        (x as u64 * frequency as u64, y as u64 * frequency as u64)
    }
}

/// The sum of the waves' amplitudes.
pub open spec fn total_amplitude(waves: Seq<MapGenerationWave>) -> int
    decreases waves.len(),
{
    if waves.len() == 0 {
        0
    } else {
        total_amplitude(waves.drop_last()) + waves.last().amplitude
    }
}

/// The sum of each wave's raw output times its amplitude. `outputs[i]` is the
/// raw output of `waves[i]`.
pub open spec fn weighted_sum(waves: Seq<MapGenerationWave>, outputs: Seq<i32>) -> int
    decreases waves.len(),
{
    if waves.len() == 0 || outputs.len() != waves.len() {
        0
    } else {
        weighted_sum(waves.drop_last(), outputs.drop_last()) + waves.last().amplitude
            * outputs.last()
    }
}

/// The composite value of an axis at one cell: the amplitude-weighted average
/// of the waves' raw outputs, rounded down. It is undefined when the outputs
/// do not pair up with the waves or when the amplitudes sum to zero.
pub open spec fn composite(waves: Seq<MapGenerationWave>, outputs: Seq<i32>) -> Option<int> {
    if waves.len() == outputs.len() && total_amplitude(waves) > 0 {
        Some(weighted_sum(waves, outputs) / total_amplitude(waves))
    } else {
        None
    }
}

/// The amplitudes of `n` waves sum to at most `n` times the largest amplitude.
pub proof fn total_amplitude_bounds(waves: Seq<MapGenerationWave>)
    ensures
        0 <= total_amplitude(waves) <= waves.len() * u32::MAX,
    decreases waves.len(),
{
    if waves.len() > 0 {
        total_amplitude_bounds(waves.drop_last());
        assert((waves.len() - 1) * u32::MAX + u32::MAX == waves.len() * u32::MAX)
            by (nonlinear_arith);
    }
}

/// With every raw output between `low` and `high`, the weighted sum lies
/// between `low` and `high` times the total amplitude.
pub proof fn weighted_sum_bounds(
    waves: Seq<MapGenerationWave>,
    outputs: Seq<i32>,
    low: int,
    high: int,
)
    requires
        waves.len() == outputs.len(),
        forall|i: int| 0 <= i < outputs.len() ==> low <= #[trigger] outputs[i] <= high,
    ensures
        low * total_amplitude(waves) <= weighted_sum(waves, outputs) <= high * total_amplitude(
            waves,
        ),
    decreases waves.len(),
{
    if waves.len() > 0 {
        let rest = total_amplitude(waves.drop_last());
        let amplitude = waves.last().amplitude as int;
        let output = outputs.last() as int;
        weighted_sum_bounds(waves.drop_last(), outputs.drop_last(), low, high);
        assert(low <= output <= high);
        assert(low * (rest + amplitude) == low * rest + low * amplitude) by (nonlinear_arith);
        assert(high * (rest + amplitude) == high * rest + high * amplitude) by (nonlinear_arith);
        assert(low * amplitude <= amplitude * output <= high * amplitude) by (nonlinear_arith)
            requires
                low <= output <= high,
                amplitude >= 0,
        ;
    }
}

/// A composite value is a true weighted average: it never leaves the range
/// that the raw outputs span.
pub proof fn composite_within_outputs(
    waves: Seq<MapGenerationWave>,
    outputs: Seq<i32>,
    low: int,
    high: int,
)
    requires
        composite(waves, outputs) is Some,
        forall|i: int| 0 <= i < outputs.len() ==> low <= #[trigger] outputs[i] <= high,
    ensures
        low <= composite(waves, outputs)->0 <= high,
{
    weighted_sum_bounds(waves, outputs, low, high);
    let sum = weighted_sum(waves, outputs);
    let total = total_amplitude(waves);
    assert(low <= sum / total <= high) by (nonlinear_arith)
        requires
            total > 0,
            low * total <= sum <= high * total,
    ;
}

/// For two waves with amplitudes `p` and `q` and raw outputs `a` and `b` the
/// composite value is `(a * p + b * q) / (p + q)`.
pub proof fn composite_of_two_waves(
    first: MapGenerationWave,
    second: MapGenerationWave,
    a: i32,
    b: i32,
)
    requires
        first.amplitude + second.amplitude > 0,
    ensures
        composite(seq![first, second], seq![a, b]) == Some(
            (a * first.amplitude + b * second.amplitude) / (first.amplitude + second.amplitude),
        ),
{
    let waves = seq![first, second];
    let outputs = seq![a, b];
    assert(waves.drop_last() =~= seq![first]);
    assert(outputs.drop_last() =~= seq![a]);
    assert(seq![first].drop_last() =~= Seq::<MapGenerationWave>::empty());
    assert(seq![a].drop_last() =~= Seq::<i32>::empty());
    assert(total_amplitude(Seq::<MapGenerationWave>::empty()) == 0);
    assert(weighted_sum(Seq::<MapGenerationWave>::empty(), Seq::<i32>::empty()) == 0);
    assert(seq![first].last() == first && seq![a].last() == a);
    assert(total_amplitude(seq![first]) == first.amplitude);
    assert(weighted_sum(seq![first], seq![a]) == first.amplitude * a);
    assert(total_amplitude(waves) == first.amplitude + second.amplitude);
    assert(weighted_sum(waves, outputs) == first.amplitude * a + second.amplitude * b);
    assert(first.amplitude * a + second.amplitude * b == a * first.amplitude + b
        * second.amplitude) by (nonlinear_arith);
}

/// The sum of the waves' amplitudes.
pub fn amplitude_total(waves: &Vec<MapGenerationWave>) -> (total: u128)
    ensures
        total == total_amplitude(waves@),
{
    let mut total: u128 = 0;
    let mut i: usize = 0;
    while i < waves.len()
        invariant
            i <= waves.len(),
            total == total_amplitude(waves@.take(i as int)),
            total <= i * u32::MAX,
        decreases waves.len() - i,
    {
        proof {
            assert(waves@.take(i + 1).drop_last() =~= waves@.take(i as int));
            assert((i + 1) * u32::MAX == i * u32::MAX + u32::MAX) by (nonlinear_arith);
            assert(i * u32::MAX <= 0xffff_ffff_ffff_ffff * 0xffff_ffff) by (nonlinear_arith)
                requires
                    i <= 0xffff_ffff_ffff_ffff,
            ;
        }
        total = total + waves[i].amplitude as u128;
        i += 1;
    }
    proof {
        assert(waves@.take(i as int) =~= waves@);
    }
    total
}

/// Rounded-down quotient of a sum by a positive total.
fn floor_div(sum: i128, total: i128) -> (quotient: i128)
    requires
        total > 0,
        -i128::MAX <= sum,
    ensures
        quotient == sum as int / total as int,
{
    if sum >= 0 {
        sum / total
    } else {
        let whole: i128 = (-sum) / total;
        let rest: i128 = (-sum) % total;
        proof {
            let s = sum as int;
            let w = total as int;
            let q = whole as int;
            let r = rest as int;
            vstd::arithmetic::div_mod::lemma_fundamental_div_mod(-s, w);
            assert(0 <= r < w);
            assert(q >= 0) by (nonlinear_arith)
                requires
                    q == (-s) / w,
                    -s >= 0,
                    w > 0,
            ;
            if r == 0 {
                assert(s == (-q) * w + 0) by (nonlinear_arith)
                    requires
                        -s == w * q + r,
                        r == 0,
                ;
                vstd::arithmetic::div_mod::lemma_fundamental_div_mod_converse(s, w, -q, 0);
            } else {
                assert(s == (-q - 1) * w + (w - r)) by (nonlinear_arith)
                    requires
                        -s == w * q + r,
                ;
                vstd::arithmetic::div_mod::lemma_fundamental_div_mod_converse(
                    s,
                    w,
                    -q - 1,
                    w - r,
                );
            }
        }
        if rest == 0 {
            -whole
        } else {
            -whole - 1
        }
    }
}

/// Blends the raw outputs of an axis's waves into the axis's value at one
/// cell: `outputs[i]` is the raw output of `waves[i]`, and the result is
/// their amplitude-weighted average, rounded down. Returns `None` when the
/// two lists differ in length or the amplitudes sum to zero.
pub fn generate_noise_value(
    waves: &Vec<MapGenerationWave>,
    outputs: &Vec<i32>,
) -> (value: Option<i32>)
    ensures
        value is Some <==> composite(waves@, outputs@) is Some,
        value matches Some(v) ==> composite(waves@, outputs@) == Some(v as int),
{
    if waves.len() != outputs.len() {
        return None;
    }
    let mut result: i128 = 0;
    let mut normalization: i128 = 0;
    let mut i: usize = 0;
    while i < waves.len()
        invariant
            i <= waves.len() == outputs.len(),
            result == weighted_sum(waves@.take(i as int), outputs@.take(i as int)),
            normalization == total_amplitude(waves@.take(i as int)),
            0 <= normalization <= i * u32::MAX,
            -(i * 0x8000_0000_0000_0000) <= result <= i * 0x8000_0000_0000_0000,
        decreases waves.len() - i,
    {
        let amplitude = waves[i].amplitude;
        let output = outputs[i];
        proof {
            assert(waves@.take(i + 1).drop_last() =~= waves@.take(i as int));
            assert(outputs@.take(i + 1).drop_last() =~= outputs@.take(i as int));
            assert(-0x8000_0000_0000_0000 <= amplitude * output <= 0x8000_0000_0000_0000)
                by (nonlinear_arith)
                requires
                    0 <= amplitude <= 0xffff_ffff,
                    -0x8000_0000 <= output <= 0x7fff_ffff,
            ;
            assert(i < 0x1_0000_0000_0000_0000);
            assert((i + 1) * 0x8000_0000_0000_0000 == i * 0x8000_0000_0000_0000
                + 0x8000_0000_0000_0000) by (nonlinear_arith);
            assert((i + 1) * u32::MAX == i * u32::MAX + u32::MAX) by (nonlinear_arith);
            assert(i * 0x8000_0000_0000_0000 <= 0xffff_ffff_ffff_ffff * 0x8000_0000_0000_0000)
                by (nonlinear_arith)
                requires
                    i <= 0xffff_ffff_ffff_ffff,
            ;
            assert(i * u32::MAX <= 0xffff_ffff_ffff_ffff * 0xffff_ffff) by (nonlinear_arith)
                requires
                    i <= 0xffff_ffff_ffff_ffff,
            ;
        }
        result = result + (amplitude as i128) * (output as i128);
        normalization = normalization + amplitude as i128;
        i += 1;
    }
    proof {
        assert(waves@.take(i as int) =~= waves@);
        assert(outputs@.take(i as int) =~= outputs@);
        assert(i * 0x8000_0000_0000_0000 <= 0xffff_ffff_ffff_ffff * 0x8000_0000_0000_0000)
            by (nonlinear_arith)
            requires
                i <= 0xffff_ffff_ffff_ffff,
        ;
        assert(i * u32::MAX <= 0xffff_ffff_ffff_ffff * 0xffff_ffff) by (nonlinear_arith)
            requires
                i <= 0xffff_ffff_ffff_ffff,
        ;
    }
    if normalization == 0 {
        return None;
    }
    let average = floor_div(result, normalization);
    proof {
        composite_within_outputs(waves@, outputs@, i32::MIN as int, i32::MAX as int);
    }
    Some(average as i32)
}

} // verus!
