use obenchmark::model::BenchScore;
use obenchmark::score::{
    baseline_for, compute_final_score, final_score_from_terms, normalize, normalize_lowered,
    scale_to_baseline, CPU_BASELINE, DEFAULT_BASELINE, DISK_BASELINE, MEM_BASELINE,
};

fn score(name: &str, raw_score: u64, weight: u64) -> BenchScore {
    BenchScore::new(name.to_string(), raw_score, weight)
}

#[test]
fn two_probe_scenario_scores_one_thousand() {
    assert_eq!(normalize("CPU X", 50_000_000), 1000);
    assert_eq!(normalize("Memory Y", 5000), 1000);
    let scores = vec![score("CPU X", 50_000_000, 2), score("Memory Y", 5000, 1)];
    assert_eq!(compute_final_score(&scores), 1000);
}

#[test]
fn unknown_name_uses_default_baseline() {
    assert_eq!(normalize("Unknown Thing", 500), 500);
    assert_eq!(baseline_for("unknown thing"), DEFAULT_BASELINE);
}

#[test]
fn categories_are_case_insensitive() {
    assert_eq!(normalize("cPu thing", 50_000_000), 1000);
    assert_eq!(normalize("MEM", 5000), 1000);
    assert_eq!(normalize("Disk IOPS 4K QD1", 1000), 1000);
    assert_eq!(normalize("RANDOM IOPS", 2000), 2000);
}

#[test]
fn baseline_lookup_on_lowered_names() {
    assert_eq!(baseline_for("cpu advanced"), CPU_BASELINE);
    assert_eq!(baseline_for("mem latency"), MEM_BASELINE);
    assert_eq!(baseline_for("memory"), MEM_BASELINE);
    assert_eq!(baseline_for("disk seq read"), DISK_BASELINE);
    assert_eq!(baseline_for("iops"), DISK_BASELINE);
    // the CPU category is tested first
    assert_eq!(baseline_for("cpu memory disk"), CPU_BASELINE);
    // already lowered input is taken as it is
    assert_eq!(baseline_for("CPU"), DEFAULT_BASELINE);
    assert_eq!(normalize_lowered("mem", 2500), 500);
}

#[test]
fn scaling_rounds_half_up() {
    assert_eq!(scale_to_baseline(3, 5000), 1);
    assert_eq!(scale_to_baseline(2, 5000), 0);
    assert_eq!(scale_to_baseline(25_000, 50_000_000), 1);
    assert_eq!(scale_to_baseline(24_999, 50_000_000), 0);
    assert_eq!(scale_to_baseline(0, 1000), 0);
}

#[test]
fn normalized_score_is_capped() {
    assert_eq!(normalize("Disk Seq Read", 10_000), 10_000);
    assert_eq!(normalize("Disk Seq Read", 10_001), 10_000);
    assert_eq!(normalize("Disk Seq Read", u64::MAX), 10_000);
    assert_eq!(normalize("Mem Write", u64::MAX), 10_000);
}

#[test]
fn normalize_grows_with_raw_score() {
    let raws = [0u64, 1, 2, 499, 500, 501, 9_999, 10_000, 1_000_000, u64::MAX];
    for name in ["CPU Advanced", "Mem Latency", "Disk IOPS 32K QD20", "Other"] {
        let mut last = 0u64;
        for raw in raws {
            let n = normalize(name, raw);
            assert!(n >= last);
            assert!(n <= 10_000);
            last = n;
        }
    }
}

#[test]
fn final_score_of_no_probes_is_zero() {
    assert_eq!(compute_final_score(&[]), 0);
    assert_eq!(final_score_from_terms(&[]), 0);
}

#[test]
fn final_score_of_one_probe_ignores_weight() {
    for w in [1u64, 2, 7, u64::MAX] {
        assert_eq!(compute_final_score(&[score("Mem Write", 3000, w)]), 600);
        assert_eq!(final_score_from_terms(&[(1234, w)]), 1234);
        assert_eq!(final_score_from_terms(&[(200_000, w)]), 99_999);
    }
}

#[test]
fn final_score_is_weighted_and_truncated() {
    assert_eq!(final_score_from_terms(&[(1000, 1), (2000, 2)]), 1666);
    assert_eq!(final_score_from_terms(&[(10, 3), (0, 1)]), 7);
    let scores = vec![
        score("CPU Advanced", 100_000_000, 4),
        score("Mem DB Ops", 5000, 2),
        score("Disk Seq Read", 500, 2),
    ];
    // normalized: 2000, 1000, 500
    assert_eq!(compute_final_score(&scores), (2000 * 4 + 1000 * 2 + 500 * 2) / 8);
}

#[test]
fn final_score_with_zero_weights_is_zero() {
    assert_eq!(final_score_from_terms(&[(5000, 0), (7000, 0)]), 0);
    assert_eq!(compute_final_score(&[score("CPU", 50_000_000, 0)]), 0);
}

#[test]
fn final_score_is_capped() {
    assert_eq!(final_score_from_terms(&[(100_000, 1), (100_000, 5)]), 99_999);
}

#[test]
fn weighted_sum_saturates_at_128_bits() {
    let terms = [(u64::MAX, u64::MAX), (u64::MAX, u64::MAX)];
    assert_eq!(final_score_from_terms(&terms), 99_999);
}
