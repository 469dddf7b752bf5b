//! Deterministic latency sampling.
//!
//! A latency is the fixed base plus a body, clamped to a maximum. The body is
//! either a lognormal sample or, with the probability given by the Pareto
//! weight, a sample of the Pareto tail. Which of the two it is, and on which
//! uniform draws it is computed, is decided here; the real-valued formula is
//! evaluated by whoever asks.

use vstd::prelude::*;

use crate::binary64::Binary64;
use crate::config::LatencyProfile;
use crate::sampler::fault::fires;
use crate::sampler::key::{
    draw_of, latency_words, std_rng_words, uniform, SampleKey, LATENCY_STREAM,
};

verus! {

/// The body of a latency, in microseconds, as a formula over uniform draws.
///
/// A draw `k` stands for the number `k` / 2^53; where a formula takes its
/// logarithm or divides by it, a draw of zero counts as the smallest positive
/// normal number.
#[derive(Copy, Clone, Debug, PartialEq, Eq, Structural)]
pub enum LatencyDraw {
    /// This number.
    Constant(Binary64),
    /// exp(ln(median) + sigma * z), where z is the standard normal variate
    /// sqrt(-2 ln(u1)) * cos(2 pi u2).
    Lognormal { median: Binary64, sigma: Binary64, u1: u64, u2: u64 },
    /// xm / u^(1/alpha).
    Pareto { xm: Binary64, alpha: Binary64, u: u64 },
}

/// The larger of a number and zero; zero for what is no number.
pub open spec fn at_least_zero(value: Binary64) -> Binary64 {
    if value.above(0) {
        value
    } else {
        Binary64 { bits: 0 }
    }
}

/// A lognormal body on the draws of two words. Without spread it is the median.
pub open spec fn lognormal_body(
    median: Binary64,
    sigma: Binary64,
    first: u64,
    second: u64,
) -> LatencyDraw {
    if !median.not_a_number() && !median.above(0) || !sigma.not_a_number() && !sigma.above(0) {
        LatencyDraw::Constant(at_least_zero(median))
    } else {
        LatencyDraw::Lognormal { median, sigma, u1: uniform(first), u2: uniform(second) }
    }
}

/// The body that a profile yields on the words of a generator.
///
/// If the Pareto weight is positive, the first word decides between tail and
/// lognormal body, which then use the words that follow.
pub open spec fn body_of(profile: LatencyProfile, words: Seq<u64>) -> LatencyDraw {
    if profile.pareto_weight.above(0) {
        if fires(words[0], profile.pareto_weight) {
            LatencyDraw::Pareto {
                xm: profile.pareto_xm_us,
                alpha: profile.pareto_alpha,
                u: uniform(words[1]),
            }
        } else {
            lognormal_body(
                profile.lognormal_median_us,
                profile.lognormal_sigma,
                words[1],
                words[2],
            )
        }
    } else {
        lognormal_body(profile.lognormal_median_us, profile.lognormal_sigma, words[0], words[1])
    }
}

/// Pick the latency body for an operation, fully determined by `profile` and `key`.
pub fn sample_latency(profile: &LatencyProfile, key: SampleKey) -> (body: LatencyDraw)
    ensures
        body == body_of(*profile, std_rng_words(key.mixed(LATENCY_STREAM), 3)),
{
    let words = latency_words(key, 3);
    pick_body(profile, &words)
}

/// The latency body that the given random words select. At most three are used.
pub fn pick_body(profile: &LatencyProfile, words: &Vec<u64>) -> (body: LatencyDraw)
    requires
        words@.len() >= 3,
    ensures
        body == body_of(*profile, words@),
{
    if profile.pareto_weight.gt_zero() {
        if profile.pareto_weight.exceeds_draw(draw_of(words[0])) {
            LatencyDraw::Pareto {
                xm: profile.pareto_xm_us,
                alpha: profile.pareto_alpha,
                u: draw_of(words[1]),
            }
        } else {
            pick_lognormal(
                profile.lognormal_median_us,
                profile.lognormal_sigma,
                words[1],
                words[2],
            )
        }
    } else {
        pick_lognormal(profile.lognormal_median_us, profile.lognormal_sigma, words[0], words[1])
    }
}

/// The lognormal body on two words.
fn pick_lognormal(median: Binary64, sigma: Binary64, first: u64, second: u64) -> (body: LatencyDraw)
    ensures
        body == lognormal_body(median, sigma, first, second),
{
    if median.le_zero() || sigma.le_zero() {
        if median.gt_zero() {
            LatencyDraw::Constant(median)
        } else {
            LatencyDraw::Constant(Binary64 { bits: 0 })
        }
    } else {
        LatencyDraw::Lognormal { median, sigma, u1: draw_of(first), u2: draw_of(second) }
    }
}

/// The latency to inject, given the rounded sum of base and body.
pub fn clamp_latency_us(profile: &LatencyProfile, rounded_us: u64) -> (latency_us: u64)
    ensures
        latency_us == (if rounded_us > profile.max_us {
            profile.max_us
        } else {
            rounded_us
        }),
{
    if rounded_us > profile.max_us {
        profile.max_us
    } else {
        rounded_us
    }
}

// --- Laws ---

/// With a Pareto weight of zero there is no tail, and with a weight of one
/// there is nothing else.
pub proof fn pareto_weight_at_its_ends(profile: LatencyProfile, words: Seq<u64>)
    ensures
        profile.pareto_weight.is_ratio(0, 1) ==> !(body_of(profile, words) is Pareto),
        profile.pareto_weight.is_ratio(1, 1) ==> body_of(profile, words) is Pareto,
{
    if profile.pareto_weight.is_ratio(1, 1) {
        vstd::arithmetic::power2::lemma_pow2_pos(1074);
        crate::sampler::fault::rate_one_always_fires(words[0], profile.pareto_weight);
    }
}

/// Without spread and tail the body is the median, whatever was drawn.
pub proof fn no_spread_no_variation(profile: LatencyProfile, words: Seq<u64>)
    requires
        profile.valid(),
        profile.pareto_weight.is_ratio(0, 1),
        profile.lognormal_sigma.is_ratio(0, 1),
    ensures
        body_of(profile, words) == LatencyDraw::Constant(
            at_least_zero(profile.lognormal_median_us),
        ),
{
}

/// Base and clamp of a profile have no part in the choice of the body.
pub proof fn body_ignores_base_and_clamp(
    profile: LatencyProfile,
    base_us: u64,
    max_us: u64,
    words: Seq<u64>,
)
    ensures
        body_of(LatencyProfile { base_us, max_us, ..profile }, words) == body_of(profile, words),
{
}

/// A body has the parameters of the profile and uniform draws from the words in
/// order, and is of the sort that the profile asks for: with a positive Pareto
/// weight the first word decides on the tail, and a lognormal body without
/// spread is its median.
pub proof fn bodies_follow_their_profile(
    profile: LatencyProfile,
    words: Seq<u64>,
    numerator: int,
    denominator: int,
)
    requires
        words.len() >= 3,
        profile.lognormal_median_us.finite(),
        profile.lognormal_sigma.finite(),
        profile.pareto_weight.is_ratio(numerator, denominator),
        denominator > 0,
    ensures
        ({
            let tail = (words[0] / 2048) * denominator < numerator * 0x0020_0000_0000_0000;
            let next = if numerator > 0 {
                1int
            } else {
                0int
            };
            let spread = profile.lognormal_median_us.scaled() > 0
                && profile.lognormal_sigma.scaled() > 0;
            body_of(profile, words) == if numerator > 0 && tail {
                LatencyDraw::Pareto {
                    xm: profile.pareto_xm_us,
                    alpha: profile.pareto_alpha,
                    u: words[1] / 2048,
                }
            } else if spread {
                LatencyDraw::Lognormal {
                    median: profile.lognormal_median_us,
                    sigma: profile.lognormal_sigma,
                    u1: words[next] / 2048,
                    u2: words[next + 1] / 2048,
                }
            } else if profile.lognormal_median_us.scaled() > 0 {
                LatencyDraw::Constant(profile.lognormal_median_us)
            } else {
                LatencyDraw::Constant(Binary64 { bits: 0 })
            }
        }),
{
    crate::sampler::fault::rules_fire_below_their_rate(
        words[0],
        profile.pareto_weight,
        numerator,
        denominator,
    );
    let scaled = profile.pareto_weight.scaled();
    let one = crate::binary64::one_scaled();
    vstd::arithmetic::power2::lemma_pow2_pos(1074);
    assert(scaled > 0 <==> numerator > 0) by (nonlinear_arith)
        requires
            scaled * denominator == numerator * one,
            denominator > 0,
            one > 0,
    ;
}

/// Profiles with different parameters have different bodies on the same words.
pub proof fn parameters_show_in_the_body(a: LatencyProfile, b: LatencyProfile, words: Seq<u64>)
    requires
        a.pareto_weight == b.pareto_weight,
        body_of(a, words) == body_of(b, words),
    ensures
        body_of(a, words) is Pareto ==> a.pareto_xm_us == b.pareto_xm_us && a.pareto_alpha
            == b.pareto_alpha,
        body_of(a, words) is Lognormal ==> a.lognormal_median_us == b.lognormal_median_us
            && a.lognormal_sigma == b.lognormal_sigma,
        body_of(a, words) is Constant && a.lognormal_median_us.above(0)
            && b.lognormal_median_us.above(0) ==> a.lognormal_median_us == b.lognormal_median_us,
{
}

} // verus!
