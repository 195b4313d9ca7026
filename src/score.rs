//! Score normalization against category baselines, and weighted aggregation.

use vstd::prelude::*;
use vstd::arithmetic::div_mod::{lemma_div_is_ordered, lemma_div_pos_is_pos, lemma_div_by_multiple};
use crate::model::{BenchScore, ScoreView, score_views};

verus! {

/// Raw score of the reference machine on CPU probes.
pub const CPU_BASELINE: u64 = 50_000_000;

/// Raw score of the reference machine on memory probes.
pub const MEM_BASELINE: u64 = 5000;

/// Raw score of the reference machine on disk probes.
pub const DISK_BASELINE: u64 = 1000;

/// Baseline for a probe whose name matches no category.
pub const DEFAULT_BASELINE: u64 = 1000;

/// Upper bound of a single normalized score.
pub const PER_BENCH_MAX: u64 = 10_000;

/// Upper bound of the final score.
pub const FINAL_SCORE_MAX: u64 = 99_999;

/// `part` occurs as a contiguous piece of `text`.
pub open spec fn has_part(text: Seq<char>, part: Seq<char>) -> bool {
    exists|i: int| 0 <= i <= text.len() - part.len() && #[trigger] text.subrange(i, i + part.len()) == part
}

/// The lowercase form of a text, as Unicode defines it.
pub uninterp spec fn lower_of(s: Seq<char>) -> Seq<char>;

/// Relies on `str::to_lowercase`: the result depends on the characters alone.
#[verifier::external_body]
fn lowercase(s: &str) -> (r: String)
    ensures
        r@ == lower_of(s@),
{
    s.to_lowercase()
}

/// Relies on `str::contains` with a `&str` pattern: true exactly when the
/// pattern is a sub-slice of the text.
#[verifier::external_body]
fn contains_part(text: &str, part: &str) -> (r: bool)
    ensures
        r == has_part(text@, part@),
{
    text.contains(part)
}

/// Baseline of the category that an already lowercased probe name falls in.
pub open spec fn baseline_of(lowered: Seq<char>) -> u64 {
    if has_part(lowered, "cpu"@) {
        CPU_BASELINE
    } else if has_part(lowered, "mem"@) || has_part(lowered, "memory"@) {
        MEM_BASELINE
    } else if has_part(lowered, "disk"@) || has_part(lowered, "iops"@) {
        DISK_BASELINE
    } else {
        DEFAULT_BASELINE
    }
}

/// `raw / baseline * 1000`, rounded half up, capped at [`PER_BENCH_MAX`].
pub open spec fn scaled(raw: int, baseline: int) -> int {
    let rounded = (2000 * raw + baseline) / (2 * baseline);
    if rounded > PER_BENCH_MAX {
        PER_BENCH_MAX as int
    } else {
        rounded
    }
}

/// Normalized score of a probe with the given name and raw score.
pub open spec fn normalized(name: Seq<char>, raw: u64) -> int {
    scaled(raw as int, baseline_of(lower_of(name)) as int)
}

/// Baseline of the category that an already lowercased probe name falls in.
pub fn baseline_for(lowered: &str) -> (r: u64)
    ensures
        r == baseline_of(lowered@),
{
    if contains_part(lowered, "cpu") {
        CPU_BASELINE
    } else if contains_part(lowered, "mem") || contains_part(lowered, "memory") {
        MEM_BASELINE
    } else if contains_part(lowered, "disk") || contains_part(lowered, "iops") {
        DISK_BASELINE
    } else {
        DEFAULT_BASELINE
    }
}

/// Scales a raw score against a baseline (see [`scaled`]).
pub fn scale_to_baseline(raw: u64, baseline: u64) -> (r: u64)
    requires
        baseline > 0,
    ensures
        r == scaled(raw as int, baseline as int),
{
    let num: u128 = raw as u128 * 2000 + baseline as u128;
    let den: u128 = baseline as u128 * 2;
    let rounded: u128 = num / den;
    if rounded > PER_BENCH_MAX as u128 {
        PER_BENCH_MAX
    } else {
        rounded as u64
    }
}

/// Normalizes a raw score given the probe's name already lowercased.
pub fn normalize_lowered(lowered: &str, raw_score: u64) -> (r: u64)
    ensures
        r == scaled(raw_score as int, baseline_of(lowered@) as int),
{
    let baseline = baseline_for(lowered);
    scale_to_baseline(raw_score, baseline)
}

/// Maps a probe's raw score onto the 0..=10000 scale, using the baseline of
/// the category that its name (compared case-insensitively) falls in.
pub fn normalize(name: &str, raw_score: u64) -> (r: u64)
    ensures
        r == normalized(name@, raw_score),
{
    let lowered = lowercase(name);
    normalize_lowered(lowered.as_str(), raw_score)
}

/// Sum of `value * weight` over weighted terms.
pub open spec fn weighted_sum(terms: Seq<(u64, u64)>) -> int
    decreases terms.len(),
{
    if terms.len() == 0 {
        0
    } else {
        weighted_sum(terms.drop_last()) + terms.last().0 * terms.last().1
    }
}

/// Sum of the weights of weighted terms.
pub open spec fn weight_sum(terms: Seq<(u64, u64)>) -> int
    decreases terms.len(),
{
    if terms.len() == 0 {
        0
    } else {
        weight_sum(terms.drop_last()) + terms.last().1
    }
}

/// Weighted average of `(value, weight)` terms, truncated and capped at
/// [`FINAL_SCORE_MAX`]; zero when the weights sum to zero. The weighted sum is
/// accumulated in 128 bits and saturates there.
pub open spec fn weighted_average(terms: Seq<(u64, u64)>) -> int {
    let w = weight_sum(terms);
    let s = if weighted_sum(terms) > u128::MAX {
        u128::MAX as int
    } else {
        weighted_sum(terms)
    };
    if w == 0 {
        0
    } else if s / w > FINAL_SCORE_MAX {
        FINAL_SCORE_MAX as int
    } else {
        s / w
    }
}

/// The `(normalized, weight)` term of each score.
pub open spec fn score_terms(scores: Seq<ScoreView>) -> Seq<(u64, u64)> {
    scores.map_values(|s: ScoreView| (normalized(s.name, s.raw_score) as u64, s.weight))
}

/// Final score of a sequence of probe scores.
pub open spec fn final_score_of(scores: Seq<ScoreView>) -> int {
    weighted_average(score_terms(scores))
}

proof fn lemma_weighted_step(terms: Seq<(u64, u64)>, i: int)
    requires
        0 <= i < terms.len(),
    ensures
        weighted_sum(terms.subrange(0, i + 1)) == weighted_sum(terms.subrange(0, i)) + terms[i].0
            * terms[i].1,
        weight_sum(terms.subrange(0, i + 1)) == weight_sum(terms.subrange(0, i)) + terms[i].1,
{
    assert(terms.subrange(0, i + 1).drop_last() =~= terms.subrange(0, i));
}

/// Weighted average of `(normalized value, weight)` terms (see [`weighted_average`]).
pub fn final_score_from_terms(terms: &[(u64, u64)]) -> (r: u64)
    ensures
        r == weighted_average(terms@),
{
    let mut total_weight: u128 = 0;
    let mut total_score: u128 = 0;
    let mut i: usize = 0;
    while i < terms.len()
        invariant
            i <= terms@.len(),
            total_weight == weight_sum(terms@.subrange(0, i as int)),
            total_weight <= i * (u64::MAX as int),
            total_score as int == if weighted_sum(terms@.subrange(0, i as int)) > u128::MAX {
                u128::MAX as int
            } else {
                weighted_sum(terms@.subrange(0, i as int))
            },
            weighted_sum(terms@.subrange(0, i as int)) >= 0,
        decreases terms@.len() - i,
    {
        let (value, weight) = terms[i];
        proof {
            lemma_weighted_step(terms@, i as int);
            assert(value as int * weight as int <= u64::MAX as int * u64::MAX as int)
                by (nonlinear_arith)
                requires
                    value <= u64::MAX,
                    weight <= u64::MAX,
            ;
            assert(value as int * weight as int >= 0) by (nonlinear_arith);
            assert(total_weight + weight <= (i + 1) * (u64::MAX as int)) by (nonlinear_arith)
                requires
                    total_weight <= i * (u64::MAX as int),
                    weight <= u64::MAX,
            ;
            assert((i + 1) * (u64::MAX as int) < u128::MAX) by (nonlinear_arith)
                requires
                    i < usize::MAX,
                    usize::MAX <= u64::MAX,
            ;
        }
        let product: u128 = value as u128 * weight as u128;
        total_score = total_score.saturating_add(product);
        total_weight = total_weight + weight as u128;
        i = i + 1;
    }
    assert(terms@.subrange(0, i as int) =~= terms@);
    if total_weight == 0 {
        0
    } else {
        let averaged: u128 = total_score / total_weight;
        if averaged > FINAL_SCORE_MAX as u128 {
            FINAL_SCORE_MAX
        } else {
            averaged as u64
        }
    }
}

/// Combines the scores of a run into one final score: the weight-averaged
/// normalized scores, truncated, capped at [`FINAL_SCORE_MAX`], and zero when
/// there is no weight at all.
pub fn compute_final_score(scores: &[BenchScore]) -> (r: u64)
    ensures
        r == final_score_of(score_views(scores@)),
{
    let mut terms: Vec<(u64, u64)> = Vec::new();
    let mut i: usize = 0;
    while i < scores.len()
        invariant
            i <= scores@.len(),
            terms@.len() == i,
            forall|j: int| 0 <= j < i ==> terms@[j] == score_terms(score_views(scores@))[j],
        decreases scores@.len() - i,
    {
        let s = &scores[i];
        let value = normalize(s.name.as_str(), s.raw_score);
        terms.push((value, s.weight));
        i = i + 1;
    }
    assert(terms@ =~= score_terms(score_views(scores@)));
    final_score_from_terms(terms.as_slice())
}

/// A normalized score lies in `0..=PER_BENCH_MAX` and does not decrease when
/// the raw score grows, for any fixed probe name.
pub proof fn normalize_monotonic(name: Seq<char>, a: u64, b: u64)
    requires
        a <= b,
    ensures
        0 <= normalized(name, a) <= normalized(name, b) <= PER_BENCH_MAX,
{
    let base = baseline_of(lower_of(name)) as int;
    assert(base > 0);
    lemma_div_is_ordered(2000 * a + base, 2000 * b + base, 2 * base);
    lemma_div_pos_is_pos(2000 * a + base, 2 * base);
}

/// With no probes the final score is zero.
pub proof fn final_score_of_no_probes()
    ensures
        final_score_of(Seq::empty()) == 0,
{
    assert(score_terms(Seq::empty()) =~= Seq::<(u64, u64)>::empty());
}

/// With one probe of positive weight, the final score is that probe's
/// normalized score capped at [`FINAL_SCORE_MAX`], whatever the weight.
pub proof fn final_score_of_one_probe(s: ScoreView)
    requires
        s.weight >= 1,
    ensures
        final_score_of(seq![s]) == if normalized(s.name, s.raw_score) > FINAL_SCORE_MAX {
            FINAL_SCORE_MAX as int
        } else {
            normalized(s.name, s.raw_score)
        },
{
    let v = normalized(s.name, s.raw_score) as u64;
    normalize_monotonic(s.name, s.raw_score, s.raw_score);
    let terms = score_terms(seq![s]);
    assert(terms =~= seq![(v, s.weight)]);
    assert(terms.drop_last() =~= Seq::<(u64, u64)>::empty());
    assert(weighted_sum(Seq::<(u64, u64)>::empty()) == 0);
    assert(weight_sum(Seq::<(u64, u64)>::empty()) == 0);
    assert(terms.last() == (v, s.weight));
    assert(weighted_sum(terms) == v * s.weight);
    assert(weight_sum(terms) == s.weight);
    assert(v * s.weight <= 10000 * s.weight) by (nonlinear_arith)
        requires
            v <= 10000,
    ;
    lemma_div_by_multiple(v as int, s.weight as int);
}

} // verus!
