use big_brain::considerations::Utility;
use big_brain::evaluators::Evaluator;
use big_brain::measures::Measure;
use big_brain::scalar::Scalar;
use big_brain::scorers::{
    all_or_nothing_system, evaluated_score, evaluating_scorer_system, fixed_score_system,
    measured_score,
    measured_scorers_system, product_of_scorers_system, store_score, sum_of_scorers_system,
    winning_scorer_system, AllOrNothing, EvaluatingScorer, FixedScore, MeasuredScorer,
    ProductOfScorers, Score, ScorerBuilder, ScorerBuilderHandle, SumOfScorers, WinningScorer,
};
use big_brain::thinker::Scorer;

fn number(value: f32) -> Scalar {
    Scalar::from_bits(value.to_bits())
}

fn value(scalar: Scalar) -> f32 {
    f32::from_bits(scalar.to_bits())
}

fn score(value: f32) -> Score {
    let mut score = Score::default();
    score.set_unchecked(number(value));
    score
}

fn scores(values: &[f32]) -> Vec<Score> {
    values.iter().map(|v| score(*v)).collect()
}

fn entities(count: u64) -> Vec<Scorer> {
    (0..count).map(Scorer).collect()
}

/// Doubles its input.
struct Doubling;

impl Evaluator for Doubling {
    fn evaluate(&self, value: Scalar) -> Scalar {
        number(2.0 * f32::from_bits(value.to_bits()))
    }
}

/// Always produces the same output.
struct Constant(f32);

impl Evaluator for Constant {
    fn evaluate(&self, _value: Scalar) -> Scalar {
        number(self.0)
    }
}

/// Adds the weighted scores.
struct WeightedSum;

impl Measure for WeightedSum {
    fn calculate(&self, inputs: &Vec<(Score, Scalar)>) -> Scalar {
        number(inputs.iter().fold(0.0, |acc, (score, weight)| acc + value(score.get()) * value(*weight)))
    }
}

/// Produces NaN.
struct Broken;

impl Measure for Broken {
    fn calculate(&self, _inputs: &Vec<(Score, Scalar)>) -> Scalar {
        number(f32::NAN)
    }
}

#[test]
fn score_starts_at_zero_and_holds_what_is_set() {
    let mut score = Score::default();
    assert_eq!(value(score.get()), 0.0);
    score.set(number(0.75));
    assert_eq!(value(score.get()), 0.75);
    score.set(number(1.0));
    assert_eq!(value(score.get()), 1.0);
    score.set_unchecked(number(70.0));
    assert_eq!(value(score.get()), 70.0);
}

#[test]
fn utility_defaults_to_zero() {
    let utility = Utility::default();
    assert_eq!(value(utility.value), 0.0);
    assert_eq!(value(utility.weight), 0.0);
}

#[test]
fn fixed_score_is_stored_as_it_is() {
    let builder = FixedScore::build(number(0.4));
    assert_eq!(ScorerBuilder::label(&builder), Some("FixedScore"));
    let builder = builder.label("steady".to_string());
    assert_eq!(ScorerBuilder::label(&builder), Some("steady"));
    let fixed = builder.build();
    let mut score = Score::default();
    fixed_score_system(&fixed, &mut score);
    assert_eq!(value(score.get()), 0.4);
}

#[test]
fn all_or_nothing_sums_children_that_all_reach_the_threshold() {
    let scorer = AllOrNothing::build(number(0.2))
        .push(ScorerBuilderHandle(1), None)
        .push(ScorerBuilderHandle(2), Some("hungry".to_string()))
        .build(entities(2))
        .expect("two children");
    let mut score = Score::default();
    all_or_nothing_system(&scorer, &scores(&[0.25, 0.5]), number(0.75), &mut score);
    assert_eq!(value(score.get()), 0.75);
    all_or_nothing_system(&scorer, &scores(&[0.2, 0.2]), number(0.4), &mut score);
    assert_eq!(value(score.get()), 0.4);
}

#[test]
fn all_or_nothing_is_zero_when_one_child_is_below_the_threshold() {
    let scorer = AllOrNothing::build(number(0.3)).build(Vec::new()).expect("no children");
    let mut score = score(1.0);
    all_or_nothing_system(&scorer, &scores(&[0.9, 0.29, 0.9]), number(2.09), &mut score);
    assert_eq!(value(score.get()), 0.0);
    assert!(scorer.qualifies(&scores(&[0.3, 0.9])));
    assert!(!scorer.qualifies(&scores(&[0.3, 0.1])));
    assert!(scorer.qualifies(&scores(&[])));
}

#[test]
fn all_or_nothing_limits_the_sum_to_one() {
    let scorer = AllOrNothing::build(number(0.5)).build(Vec::new()).expect("no children");
    let mut score = Score::default();
    all_or_nothing_system(&scorer, &scores(&[0.9, 0.8]), number(1.7), &mut score);
    assert_eq!(value(score.get()), 1.0);
}

#[test]
fn all_or_nothing_builder_counts_its_children() {
    let builder = AllOrNothing::build(number(0.5)).push(ScorerBuilderHandle(4), None);
    assert_eq!(ScorerBuilder::label(&builder), Some("AllOrNothing"));
    assert_eq!(builder.children(), &vec![ScorerBuilderHandle(4)]);
    assert!(builder.build(entities(2)).is_none());
    let builder = AllOrNothing::build(number(0.5)).label("both".to_string());
    assert_eq!(ScorerBuilder::label(&builder), Some("both"));
}

#[test]
fn sum_of_scorers_applies_threshold_and_limit() {
    let builder = SumOfScorers::build(number(0.8))
        .push(ScorerBuilderHandle(1), None)
        .push(ScorerBuilderHandle(2), None);
    assert_eq!(ScorerBuilder::label(&builder), Some("SumOfScorers"));
    assert!(SumOfScorers::build(number(0.8)).push(ScorerBuilderHandle(1), None).build(entities(3)).is_none());
    let scorer = builder.build(entities(2)).expect("two children");
    let mut score = Score::default();
    sum_of_scorers_system(&scorer, number(0.9), &mut score);
    assert_eq!(value(score.get()), 0.9);
    sum_of_scorers_system(&scorer, number(0.8), &mut score);
    assert_eq!(value(score.get()), 0.8);
    sum_of_scorers_system(&scorer, number(0.79), &mut score);
    assert_eq!(value(score.get()), 0.0);
    sum_of_scorers_system(&scorer, number(1.6), &mut score);
    assert_eq!(value(score.get()), 1.0);
    sum_of_scorers_system(&scorer, number(-0.5), &mut score);
    assert_eq!(value(score.get()), 0.0);
}

#[test]
fn product_of_scorers_applies_threshold_and_limit() {
    let builder = ProductOfScorers::build(number(0.5)).push(ScorerBuilderHandle(1), None);
    assert_eq!(ScorerBuilder::label(&builder), Some("ProductOfScorers"));
    let scorer = builder.build(entities(1)).expect("one child");
    assert!(!scorer.compensates(number(0.25)));
    let mut score = Score::default();
    product_of_scorers_system(&scorer, number(0.6), &mut score);
    assert_eq!(value(score.get()), 0.6);
    product_of_scorers_system(&scorer, number(0.25), &mut score);
    assert_eq!(value(score.get()), 0.0);
    product_of_scorers_system(&scorer, number(1.25), &mut score);
    assert_eq!(value(score.get()), 1.0);
}

#[test]
fn product_of_scorers_compensates_products_below_one() {
    let scorer = ProductOfScorers::build(number(0.0))
        .use_compensation(true)
        .push(ScorerBuilderHandle(1), None)
        .push(ScorerBuilderHandle(2), None)
        .build(entities(2))
        .expect("two children");
    assert!(scorer.compensates(number(0.25)));
    assert!(scorer.compensates(number(0.0)));
    assert!(!scorer.compensates(number(1.0)));
    assert!(!scorer.compensates(number(1.5)));
    assert!(!scorer.compensates(number(f32::NAN)));
    // Two children of one half each: the product of a quarter is made up
    // by three quarters of one half of itself.
    let product = 0.5f32 * 0.5;
    let compensated = product + (1.0 - product) * (1.0 - 1.0 / 2.0) * product;
    assert!(compensated > 0.25 && compensated <= 1.0);
    let mut score = Score::default();
    product_of_scorers_system(&scorer, number(compensated), &mut score);
    assert_eq!(value(score.get()), 0.34375);
}

#[test]
fn winning_scorer_takes_the_highest_child() {
    let builder = WinningScorer::build(number(0.5))
        .push(ScorerBuilderHandle(1), None)
        .push(ScorerBuilderHandle(2), None)
        .push(ScorerBuilderHandle(3), None);
    assert_eq!(ScorerBuilder::label(&builder), Some("WinningScorer"));
    let scorer = builder.build(entities(3)).expect("three children");
    let mut score = Score::default();
    winning_scorer_system(&scorer, &scores(&[0.3, 0.9, 0.6]), &mut score);
    assert_eq!(value(score.get()), 0.9);
    winning_scorer_system(&scorer, &scores(&[0.5, 0.1, 0.2]), &mut score);
    assert_eq!(value(score.get()), 0.5);
    winning_scorer_system(&scorer, &scores(&[0.3, 0.49, 0.2]), &mut score);
    assert_eq!(value(score.get()), 0.0);
    winning_scorer_system(&scorer, &scores(&[0.3, 7.0]), &mut score);
    assert_eq!(value(score.get()), 1.0);
}

#[test]
fn winning_scorer_without_children_is_zero() {
    let scorer = WinningScorer::build(number(0.0)).build(Vec::new()).expect("no children");
    let mut score = score(0.5);
    winning_scorer_system(&scorer, &Vec::new(), &mut score);
    assert_eq!(value(score.get()), 0.0);
}

#[test]
fn evaluating_scorer_limits_what_the_evaluator_produces() {
    let builder = EvaluatingScorer::build(ScorerBuilderHandle(1), None, Doubling);
    assert_eq!(ScorerBuilder::label(&builder), Some("EvaluatingScorer"));
    assert_eq!(builder.child(), ScorerBuilderHandle(1));
    let scorer = builder.build(Scorer(9));
    let mut score = Score::default();
    assert!(evaluating_scorer_system(&scorer, &crate::score(0.3), &mut score));
    assert_eq!(value(score.get()), 0.6);
    assert!(evaluating_scorer_system(&scorer, &crate::score(0.8), &mut score));
    assert_eq!(value(score.get()), 1.0);
}

#[test]
fn evaluating_scorer_keeps_out_of_range_outputs_in_range() {
    for (output, expected) in [(-3.0, 0.0), (100.0, 1.0), (f32::INFINITY, 1.0), (f32::NEG_INFINITY, 0.0), (0.5, 0.5)] {
        let scorer = EvaluatingScorer::build(ScorerBuilderHandle(1), None, Constant(output)).build(Scorer(1));
        let mut score = Score::default();
        assert!(evaluating_scorer_system(&scorer, &crate::score(0.3), &mut score));
        assert_eq!(value(score.get()), expected);
    }
}

#[test]
fn evaluating_scorer_stores_no_nan() {
    let scorer = EvaluatingScorer::build(ScorerBuilderHandle(1), None, Constant(f32::NAN)).build(Scorer(1));
    let mut score = score(0.25);
    assert!(!evaluating_scorer_system(&scorer, &crate::score(0.3), &mut score));
    assert_eq!(value(score.get()), 0.25);
}

#[test]
fn measured_scorer_applies_threshold_and_limit() {
    let builder = MeasuredScorer::build(number(0.5), Broken)
        .measure(WeightedSum)
        .push(ScorerBuilderHandle(1), None, number(0.5))
        .push(ScorerBuilderHandle(2), None, number(0.25));
    assert_eq!(ScorerBuilder::label(&builder), Some("MeasuredScorer"));
    assert_eq!(builder.children().len(), 2);
    let scorer = builder.build(entities(2)).expect("two children");
    let mut score = Score::default();
    let inputs = vec![(crate::score(1.0), number(0.5)), (crate::score(0.5), number(0.25))];
    assert!(measured_scorers_system(&scorer, &inputs, &mut score));
    assert_eq!(value(score.get()), 0.625);
    let inputs = vec![(crate::score(0.5), number(0.5)), (crate::score(0.5), number(0.25))];
    assert!(measured_scorers_system(&scorer, &inputs, &mut score));
    assert_eq!(value(score.get()), 0.0);
    let inputs = vec![(crate::score(1.0), number(4.0))];
    assert!(measured_scorers_system(&scorer, &inputs, &mut score));
    assert_eq!(value(score.get()), 1.0);
}

#[test]
fn measured_scorer_stores_no_nan() {
    let scorer = MeasuredScorer::build(number(0.5), Broken).build(Vec::new()).expect("no children");
    let mut score = score(0.75);
    assert!(!measured_scorers_system(&scorer, &Vec::new(), &mut score));
    assert_eq!(value(score.get()), 0.75);
    assert!(MeasuredScorer::build(number(0.5), Broken).label("m".to_string()).build(entities(1)).is_none());
}

#[test]
fn measured_score_is_zero_below_the_threshold() {
    assert_eq!(value(measured_score(number(0.4), number(0.5))), 0.0);
    assert_eq!(value(measured_score(number(0.5), number(0.5))), 0.5);
    assert_eq!(value(measured_score(number(3.0), number(0.5))), 1.0);
    assert_eq!(value(measured_score(number(-1.0), number(-2.0))), 0.0);
    assert!(measured_score(number(f32::NAN), number(0.5)).check_nan());
}

#[test]
fn store_score_refuses_what_is_no_score() {
    let mut score = score(0.5);
    for refused in [f32::NAN, 1.5, -0.25, f32::INFINITY] {
        assert!(!store_score(number(refused), &mut score));
        assert_eq!(value(score.get()), 0.5);
    }
    assert!(store_score(number(1.0), &mut score));
    assert_eq!(value(score.get()), 1.0);
}

#[test]
fn evaluated_score_is_limited_to_the_unit_range() {
    assert_eq!(value(evaluated_score(number(0.4))), 0.4);
    assert_eq!(value(evaluated_score(number(1.5))), 1.0);
    assert_eq!(value(evaluated_score(number(-1.5))), 0.0);
    assert!(evaluated_score(number(f32::NAN)).check_nan());
}

#[test]
fn all_or_nothing_ignores_the_sum_when_a_child_is_below_the_threshold() {
    let scorer = AllOrNothing::build(number(0.5)).build(Vec::new()).expect("no children");
    let mut score = score(1.0);
    all_or_nothing_system(&scorer, &scores(&[0.9, 0.1]), number(f32::NAN), &mut score);
    assert_eq!(value(score.get()), 0.0);
}
