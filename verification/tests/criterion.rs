use partition_scoring::criterion::{corrected_sample_size, ModelSelectionCriterion};
use partition_scoring::error::InvalidInput;

#[test]
fn parse_reads_the_three_criteria() {
    assert_eq!(ModelSelectionCriterion::parse("aic"), Ok(ModelSelectionCriterion::Aic));
    assert_eq!(ModelSelectionCriterion::parse("aicc"), Ok(ModelSelectionCriterion::Aicc));
    assert_eq!(ModelSelectionCriterion::parse("bic"), Ok(ModelSelectionCriterion::Bic));
}

#[test]
fn criterion_names_are_case_insensitive() {
    for name in ["BIC", "bic", "Bic", "bIc", "biC"] {
        assert_eq!(ModelSelectionCriterion::parse(name), Ok(ModelSelectionCriterion::Bic), "{name}");
    }
    for name in ["AIC", "Aic", "aIC"] {
        assert_eq!(ModelSelectionCriterion::parse(name), Ok(ModelSelectionCriterion::Aic), "{name}");
    }
    for name in ["AICC", "AICc", "AiCc", "aicC"] {
        assert_eq!(ModelSelectionCriterion::parse(name), Ok(ModelSelectionCriterion::Aicc), "{name}");
    }
}

#[test]
fn unknown_criterion_is_rejected() {
    assert_eq!(ModelSelectionCriterion::parse("xic"), Err(InvalidInput::UnknownCriterion));
    assert_eq!(ModelSelectionCriterion::parse("XIC"), Err(InvalidInput::UnknownCriterion));
}

#[test]
fn criterion_rejects_near_misses() {
    for name in ["", "ai", "aiccc", "bicc", " bic", "bic ", "a i c", "dic"] {
        assert_eq!(ModelSelectionCriterion::parse(name), Err(InvalidInput::UnknownCriterion), "{name:?}");
    }
}

#[test]
fn criterion_lowers_ascii_letters_only() {
    // a character next to the capitals in the table is not a letter
    assert_eq!(ModelSelectionCriterion::parse("[ic"), Err(InvalidInput::UnknownCriterion));
    assert_eq!(ModelSelectionCriterion::parse("@ic"), Err(InvalidInput::UnknownCriterion));
    // a capital outside ASCII keeps its case
    assert_eq!(ModelSelectionCriterion::parse("\u{c0}ic"), Err(InvalidInput::UnknownCriterion));
    assert_eq!(ModelSelectionCriterion::parse("\u{ff22}\u{ff29}\u{ff23}"), Err(InvalidInput::UnknownCriterion));
    assert_eq!(ModelSelectionCriterion::parse("b\u{130}c"), Err(InvalidInput::UnknownCriterion));
}

#[test]
fn small_sample_is_raised_to_free_params_plus_two() {
    assert_eq!(corrected_sample_size(10, 23), 25);
    assert_eq!(corrected_sample_size(0, 23), 25);
    assert_eq!(corrected_sample_size(24, 23), 25);
    assert_eq!(corrected_sample_size(-7, 23), 25);
}

#[test]
fn small_sample_scores_as_the_least_sample() {
    for total_sites in [-3i64, 0, 1, 10, 24] {
        assert_eq!(corrected_sample_size(total_sites, 23), corrected_sample_size(25, 23));
    }
}

#[test]
fn sufficient_sample_is_kept() {
    assert_eq!(corrected_sample_size(25, 23), 25);
    assert_eq!(corrected_sample_size(26, 23), 26);
    assert_eq!(corrected_sample_size(120, 23), 120);
    assert_eq!(corrected_sample_size(120, 39), 120);
    assert_eq!(corrected_sample_size(i64::MAX, 0), i64::MAX as i128);
}

#[test]
fn sample_size_with_negative_free_params() {
    assert_eq!(corrected_sample_size(0, -5), 0);
    assert_eq!(corrected_sample_size(-4, -5), -3);
    assert_eq!(corrected_sample_size(0, -2), 0);
    assert_eq!(corrected_sample_size(-1, -2), 0);
}

#[test]
fn sample_size_does_not_overflow() {
    assert_eq!(corrected_sample_size(0, i64::MAX), i64::MAX as i128 + 2);
    assert_eq!(corrected_sample_size(i64::MAX, i64::MAX), i64::MAX as i128 + 2);
    assert_eq!(corrected_sample_size(i64::MIN, i64::MIN), i64::MIN as i128 + 2);
    assert_eq!(corrected_sample_size(i64::MAX, i64::MIN), i64::MAX as i128);
}

#[test]
fn correction_denominator_is_positive() {
    let cases: [(i64, i64); 7] =
        [(0, 0), (10, 23), (25, 23), (120, 23), (0, -5), (i64::MIN, i64::MAX), (i64::MAX, i64::MIN)];
    for (total_sites, free_params) in cases {
        let n = corrected_sample_size(total_sites, free_params);
        assert!(n - free_params as i128 - 1 >= 1);
    }
}
