//! Scorers boil the world down to a number between zero and one. This module
//! holds the score itself and the rules by which composite scorers combine
//! the scores of their children.
//!
//! Sums, products and measures are computed in single-precision arithmetic
//! by the caller. What is decided here is everything around that arithmetic:
//! which children disqualify a result, when a result falls below its
//! threshold, and how a result is limited to the unit range before it is
//! stored.

use vstd::prelude::*;

use crate::evaluators::clamp;
use crate::evaluators::clamp_spec;
use crate::evaluators::lemma_clamp_unit;
use crate::evaluators::Evaluator;
use crate::measures::Measure;
use crate::scalar::Scalar;
use crate::scalar::ONE_BITS;
use crate::scalar::ZERO_BITS;
use crate::thinker::Scorer;

verus! {

/// Score value between zero and one associated with a scorer.
#[derive(Debug, Clone, Copy)]
pub struct Score(pub(crate) Scalar);

impl Score {
    /// The number that the score holds.
    pub closed spec fn value(&self) -> Scalar {
        self.0
    }

    /// Returns the score's current value.
    pub fn get(&self) -> (value: Scalar)
        ensures
            value == self.value(),
    {
        self.0
    }

    /// Sets the score's value, which has to lie between zero and one.
    pub fn set(&mut self, value: Scalar)
        requires
            value.in_unit_range(),
        ensures
            final(self).value() == value,
    {
        self.0 = value;
    }

    /// Sets the score's value, whatever it is. It is up to the caller to make
    /// sure that all scorers use the same units.
    pub fn set_unchecked(&mut self, value: Scalar)
        ensures
            final(self).value() == value,
    {
        self.0 = value;
    }
}

impl Default for Score {
    fn default() -> (score: Self)
        ensures
            score.value().bits == ZERO_BITS,
    {
        Score(Scalar { bits: ZERO_BITS })
    }
}

/// `value` limited to the unit range: zero below it, one above it, and
/// `value` itself inside it or when it is NaN.
pub open spec fn unit_clamp(value: Scalar) -> Scalar {
    clamp_spec(value, Scalar { bits: ZERO_BITS }, Scalar { bits: ONE_BITS })
}

/// `value` if it reaches `threshold`, zero if it is below; then limited to
/// the unit range. A comparison with NaN on either side does not count as
/// "below".
pub open spec fn threshold_clamp(value: Scalar, threshold: Scalar) -> Scalar {
    if value.lt(threshold) {
        Scalar { bits: ZERO_BITS }
    } else {
        unit_clamp(value)
    }
}

/// Whatever the threshold, a number put through it and limited is a score:
/// it lies in the unit range. Only NaN, which is no number, passes through
/// as it is.
pub proof fn lemma_threshold_clamp(value: Scalar, threshold: Scalar)
    ensures
        !value.is_nan() ==> threshold_clamp(value, threshold).in_unit_range(),
        !value.is_nan() ==> unit_clamp(value).in_unit_range(),
        value.is_nan() ==> threshold_clamp(value, threshold) == value,
        value.in_unit_range() && !value.lt(threshold) ==> threshold_clamp(value, threshold)
            == value,
{
    lemma_clamp_unit(value);
}

/// Computes [`threshold_clamp`].
fn apply_threshold(value: Scalar, threshold: Scalar) -> (r: Scalar)
    ensures
        r == threshold_clamp(value, threshold),
        !value.is_nan() ==> r.in_unit_range(),
        value.is_nan() ==> r == value,
{
    proof {
        lemma_clamp_unit(value);
    }
    if value < threshold {
        Scalar::zero()
    } else {
        clamp(value, Scalar::zero(), Scalar::one())
    }
}

/// Scorer that always returns the same, fixed score.
#[derive(Debug, Clone, Copy)]
pub struct FixedScore(pub Scalar);

/// Gives a [`FixedScore`] scorer its score.
pub fn fixed_score_system(fixed: &FixedScore, score: &mut Score)
    requires
        fixed.0.in_unit_range(),
    ensures
        final(score).value() == fixed.0,
        final(score).value().in_unit_range(),
{
    score.set(fixed.0);
}

/// Composite scorer that yields the sum of its children's scores if every
/// single one of them is at or above the threshold.
#[derive(Debug)]
pub struct AllOrNothing {
    pub(crate) threshold: Scalar,
    pub(crate) scorers: Vec<Scorer>,
}

/// True when some child's score is below `threshold`.
pub open spec fn any_below(children: Seq<Score>, threshold: Scalar) -> bool {
    exists|i: int| 0 <= i < children.len() && (#[trigger] children[i]).value().lt(threshold)
}

/// The score of an [`AllOrNothing`] scorer: zero if any child is below the
/// threshold, otherwise the sum of the children limited to the unit range.
pub open spec fn all_or_nothing_score(
    threshold: Scalar,
    children: Seq<Score>,
    sum: Scalar,
) -> Scalar {
    if any_below(children, threshold) {
        Scalar { bits: ZERO_BITS }
    } else {
        unit_clamp(sum)
    }
}

impl AllOrNothing {
    /// The threshold that every child has to reach.
    pub closed spec fn threshold(&self) -> Scalar {
        self.threshold
    }

    /// The children.
    pub closed spec fn scorers(&self) -> Seq<Scorer> {
        self.scorers@
    }

    /// The entities of the children.
    pub fn children(&self) -> (scorers: &Vec<Scorer>)
        ensures
            scorers@ == self.scorers(),
    {
        &self.scorers
    }

    /// Tells whether every child reaches the threshold, so that the sum of
    /// the children counts.
    pub fn qualifies(&self, children: &Vec<Score>) -> (ok: bool)
        ensures
            ok == !any_below(children@, self.threshold()),
    {
        let len = children.len();
        let mut i: usize = 0;
        while i < len
            invariant
                0 <= i <= len,
                children@.len() == len,
                forall|j: int| 0 <= j < i ==> !(#[trigger] children@[j]).value().lt(self.threshold),
            decreases len - i,
        {
            if children[i].get() < self.threshold {
                return false;
            }
            i = i + 1;
        }
        true
    }
}

/// Updates the score of an [`AllOrNothing`] scorer from the scores of its
/// children and their sum. Where a child is below the threshold the sum
/// does not count, and may be anything.
pub fn all_or_nothing_system(
    scorer: &AllOrNothing,
    children: &Vec<Score>,
    sum: Scalar,
    score: &mut Score,
)
    requires
        !any_below(children@, scorer.threshold()) ==> !sum.is_nan(),
    ensures
        final(score).value() == all_or_nothing_score(scorer.threshold(), children@, sum),
        final(score).value().in_unit_range(),
{
    proof {
        lemma_clamp_unit(sum);
    }
    let value = if scorer.qualifies(children) {
        clamp(sum, Scalar::zero(), Scalar::one())
    } else {
        Scalar::zero()
    };
    score.set(value);
}

/// Composite scorer that yields the sum of its children's scores if that sum
/// is at or above the threshold.
#[derive(Debug)]
pub struct SumOfScorers {
    pub(crate) threshold: Scalar,
    pub(crate) scorers: Vec<Scorer>,
    pub(crate) scorer_labels: Vec<String>,
}

impl SumOfScorers {
    /// The threshold that the sum has to reach.
    pub closed spec fn threshold(&self) -> Scalar {
        self.threshold
    }

    /// The children.
    pub closed spec fn scorers(&self) -> Seq<Scorer> {
        self.scorers@
    }

    /// The entities of the children.
    pub fn children(&self) -> (scorers: &Vec<Scorer>)
        ensures
            scorers@ == self.scorers(),
    {
        &self.scorers
    }
}

/// Updates the score of a [`SumOfScorers`] scorer from the sum of its
/// children's scores: zero if the sum is below the threshold, otherwise the
/// sum limited to the unit range.
pub fn sum_of_scorers_system(scorer: &SumOfScorers, sum: Scalar, score: &mut Score)
    requires
        !sum.is_nan(),
    ensures
        final(score).value() == threshold_clamp(sum, scorer.threshold()),
        final(score).value().in_unit_range(),
{
    let value = apply_threshold(sum, scorer.threshold);
    score.set(value);
}

/// Composite scorer that yields the product of its children's scores if that
/// product is at or above the threshold. It can make up for the way a
/// product shrinks as the number of children grows.
#[derive(Debug)]
pub struct ProductOfScorers {
    pub(crate) threshold: Scalar,
    pub(crate) use_compensation: bool,
    pub(crate) scorers: Vec<Scorer>,
    pub(crate) scorer_labels: Vec<String>,
}

impl ProductOfScorers {
    /// The threshold that the product has to reach.
    pub closed spec fn threshold(&self) -> Scalar {
        self.threshold
    }

    /// Whether the product is to be compensated.
    pub closed spec fn use_compensation(&self) -> bool {
        self.use_compensation
    }

    /// The children.
    pub closed spec fn scorers(&self) -> Seq<Scorer> {
        self.scorers@
    }

    /// The entities of the children.
    pub fn children(&self) -> (scorers: &Vec<Scorer>)
        ensures
            scorers@ == self.scorers(),
    {
        &self.scorers
    }

    /// Tells whether the compensation factor applies to `product`: it does
    /// when compensation is switched on and the product is below one.
    pub fn compensates(&self, product: Scalar) -> (applies: bool)
        ensures
            applies == (self.use_compensation() && product.lt(Scalar { bits: ONE_BITS })),
    {
        self.use_compensation && product < Scalar::one()
    }
}

/// Updates the score of a [`ProductOfScorers`] scorer from the product of
/// its children's scores, compensated where [`ProductOfScorers::compensates`]
/// says so: zero if it is below the threshold, otherwise the product limited
/// to the unit range.
pub fn product_of_scorers_system(scorer: &ProductOfScorers, product: Scalar, score: &mut Score)
    requires
        !product.is_nan(),
    ensures
        final(score).value() == threshold_clamp(product, scorer.threshold()),
        final(score).value().in_unit_range(),
{
    let value = apply_threshold(product, scorer.threshold);
    score.set(value);
}

/// Composite scorer that yields the highest of its children's scores if
/// that score is at or above the threshold.
#[derive(Debug)]
pub struct WinningScorer {
    pub(crate) threshold: Scalar,
    pub(crate) scorers: Vec<Scorer>,
    pub(crate) scorer_labels: Vec<String>,
}

/// True when `best` is the score of one of the children and no child scores
/// higher.
pub open spec fn is_highest(children: Seq<Score>, best: Scalar) -> bool {
    &&& exists|i: int| 0 <= i < children.len() && (#[trigger] children[i]).value() == best
    &&& forall|i: int| 0 <= i < children.len() ==> (#[trigger] children[i]).value().le(best)
}

/// True when `value` is what a [`WinningScorer`] yields for these children:
/// zero without children or when the highest score is below the threshold,
/// otherwise the highest score limited to the unit range.
pub open spec fn is_winning_score(threshold: Scalar, children: Seq<Score>, value: Scalar) -> bool {
    if children.len() == 0 {
        value.bits == ZERO_BITS
    } else {
        exists|best: Scalar| #[trigger]
            is_highest(children, best) && value == threshold_clamp(best, threshold)
    }
}

/// True when no score in the list is NaN.
pub open spec fn all_numbers(children: Seq<Score>) -> bool {
    forall|i: int| 0 <= i < children.len() ==> !(#[trigger] children[i]).value().is_nan()
}

impl WinningScorer {
    /// The threshold that the highest score has to reach.
    pub closed spec fn threshold(&self) -> Scalar {
        self.threshold
    }

    /// The children.
    pub closed spec fn scorers(&self) -> Seq<Scorer> {
        self.scorers@
    }

    /// The entities of the children.
    pub fn children(&self) -> (scorers: &Vec<Scorer>)
        ensures
            scorers@ == self.scorers(),
    {
        &self.scorers
    }
}

/// Updates the score of a [`WinningScorer`] from the scores of its children.
pub fn winning_scorer_system(scorer: &WinningScorer, children: &Vec<Score>, score: &mut Score)
    requires
        all_numbers(children@),
    ensures
        is_winning_score(scorer.threshold(), children@, final(score).value()),
        final(score).value().in_unit_range(),
{
    let len = children.len();
    if len == 0 {
        score.set(Scalar::zero());
        return ;
    }
    let mut best = children[0].get();
    let mut i: usize = 1;
    while i < len
        invariant
            1 <= i <= len,
            children@.len() == len,
            all_numbers(children@),
            !best.is_nan(),
            exists|j: int| 0 <= j < i && (#[trigger] children@[j]).value() == best,
            forall|j: int| 0 <= j < i ==> (#[trigger] children@[j]).value().le(best),
        decreases len - i,
    {
        let candidate = children[i].get();
        if candidate > best {
            best = candidate;
        }
        i = i + 1;
    }
    assert(is_highest(children@, best));
    let value = apply_threshold(best, scorer.threshold);
    score.set(value);
}

/// Two highest scores of the same children are the same number, so a
/// [`WinningScorer`] yields the same number whichever of them it finds.
pub proof fn lemma_highest_is_unique(children: Seq<Score>, a: Scalar, b: Scalar)
    requires
        is_highest(children, a),
        is_highest(children, b),
    ensures
        a.same_number(b),
{
    let i = choose|i: int| 0 <= i < children.len() && (#[trigger] children[i]).value() == a;
    let j = choose|j: int| 0 <= j < children.len() && (#[trigger] children[j]).value() == b;
    assert(children[i].value().le(b));
    assert(children[j].value().le(a));
}

/// Composite scorer that passes the score of one child through an
/// [`Evaluator`].
#[derive(Debug)]
pub struct EvaluatingScorer<E: Evaluator> {
    pub(crate) scorer: Scorer,
    pub(crate) evaluator: E,
}

impl<E: Evaluator> EvaluatingScorer<E> {
    /// The child.
    pub closed spec fn scorer(&self) -> Scorer {
        self.scorer
    }

    /// The curve applied to the child's score.
    pub closed spec fn evaluator(&self) -> E {
        self.evaluator
    }

    /// The entity of the child.
    pub fn child(&self) -> (scorer: Scorer)
        ensures
            scorer == self.scorer(),
    {
        self.scorer
    }
}

/// Stores `value` if it is a score, that is, if it lies in the unit range.
/// Otherwise the score stays as it was and `false` is returned.
pub fn store_score(value: Scalar, score: &mut Score) -> (stored: bool)
    ensures
        stored == value.in_unit_range(),
        stored ==> final(score).value() == value,
        !stored ==> *final(score) == *old(score),
{
    if value.check_unit_range() {
        score.set(value);
        true
    } else {
        false
    }
}

/// Turns what an evaluator produced into a score, by limiting it to the
/// unit range.
pub fn evaluated_score(evaluated: Scalar) -> (value: Scalar)
    ensures
        value == unit_clamp(evaluated),
        !evaluated.is_nan() ==> value.in_unit_range(),
        evaluated.is_nan() ==> value == evaluated,
{
    proof {
        lemma_clamp_unit(evaluated);
    }
    clamp(evaluated, Scalar::zero(), Scalar::one())
}

/// Updates the score of an [`EvaluatingScorer`]: the scorer's evaluator is
/// applied to the child's score, once, and [`evaluated_score`] turns its
/// output into the score. Returns `false`, with the score unchanged, exactly
/// when the evaluator produced NaN.
pub fn evaluating_scorer_system<E: Evaluator>(
    scorer: &EvaluatingScorer<E>,
    inner: &Score,
    score: &mut Score,
) -> (stored: bool)
    ensures
        exists|evaluated: Scalar|
            {
                &&& #[trigger] call_ensures(
                    E::evaluate,
                    (&scorer.evaluator(), inner.value()),
                    evaluated,
                )
                &&& stored == !evaluated.is_nan()
                &&& stored ==> final(score).value() == unit_clamp(evaluated)
            },
        stored ==> final(score).value().in_unit_range(),
        !stored ==> *final(score) == *old(score),
{
    let evaluated = scorer.evaluator.evaluate(inner.get());
    let value = evaluated_score(evaluated);
    store_score(value, score)
}

/// Composite scorer that combines the weighted scores of its children with
/// a [`Measure`].
#[derive(Debug)]
pub struct MeasuredScorer<M: Measure> {
    pub(crate) threshold: Scalar,
    pub(crate) measure: M,
    pub(crate) scorers: Vec<(Scorer, Scalar)>,
}

impl<M: Measure> MeasuredScorer<M> {
    /// The threshold that the measure has to reach.
    pub closed spec fn threshold(&self) -> Scalar {
        self.threshold
    }

    /// The measure that combines the children.
    pub closed spec fn measure(&self) -> M {
        self.measure
    }

    /// The children with their weights.
    pub closed spec fn scorers(&self) -> Seq<(Scorer, Scalar)> {
        self.scorers@
    }

    /// The entities of the children with their weights.
    pub fn children(&self) -> (scorers: &Vec<(Scorer, Scalar)>)
        ensures
            scorers@ == self.scorers(),
    {
        &self.scorers
    }
}

/// Turns what a measure produced into a score: zero if it is below the
/// threshold, otherwise the measure limited to the unit range.
pub fn measured_score(measured: Scalar, threshold: Scalar) -> (value: Scalar)
    ensures
        value == threshold_clamp(measured, threshold),
        !measured.is_nan() ==> value.in_unit_range(),
        measured.is_nan() ==> value == measured,
{
    apply_threshold(measured, threshold)
}

/// Updates the score of a [`MeasuredScorer`]: the scorer's measure is
/// applied to the children's scores and weights, once, and
/// [`measured_score`] turns its output into the score. Returns `false`, with
/// the score unchanged, exactly when the measure produced NaN.
pub fn measured_scorers_system<M: Measure>(
    scorer: &MeasuredScorer<M>,
    inputs: &Vec<(Score, Scalar)>,
    score: &mut Score,
) -> (stored: bool)
    ensures
        exists|measured: Scalar|
            {
                &&& #[trigger] call_ensures(M::calculate, (&scorer.measure(), inputs), measured)
                &&& stored == !measured.is_nan()
                &&& stored ==> final(score).value() == threshold_clamp(
                    measured,
                    scorer.threshold(),
                )
            },
        stored ==> final(score).value().in_unit_range(),
        !stored ==> *final(score) == *old(score),
{
    let measured = scorer.measure.calculate(inputs);
    let value = measured_score(measured, scorer.threshold);
    store_score(value, score)
}

/// Names a scorer builder that the host keeps. The engine stores handles
/// and gives one back whenever the scorer it describes has to be spawned.
#[derive(Debug, Clone, Copy, PartialEq, Eq, Hash, Structural)]
pub struct ScorerBuilderHandle(pub u64);

/// What every scorer builder can tell about itself.
pub trait ScorerBuilder {
    /// A label to display when logging.
    fn label(&self) -> Option<&str>;
}

/// The texts of a list of labels.
pub open spec fn texts(labels: Seq<String>) -> Seq<Seq<char>> {
    labels.map_values(|label: String| label@)
}

/// The label under which a child is listed: its own, or "Unnamed Scorer".
pub open spec fn listed_label(label: Option<String>) -> Seq<char> {
    match label {
        Some(text) => text@,
        None => "Unnamed Scorer"@,
    }
}

/// Adds the label of a child to the list.
fn list_label(labels: &mut Vec<String>, label: Option<String>)
    ensures
        texts(final(labels)@) == texts(old(labels)@).push(listed_label(label)),
{
    let text = match label {
        Some(text) => text,
        None => "Unnamed Scorer".to_owned(),
    };
    labels.push(text);
    assert(texts(labels@) =~= texts(old(labels)@).push(listed_label(label)));
}

/// Borrows the label if there is one, and `fallback` if not.
fn label_or<'a>(label: &'a Option<String>, fallback: &'a str) -> (text: Option<&'a str>)
    ensures
        text matches Some(t) && t@ == (match *label {
            Some(own) => own@,
            None => fallback@,
        }),
{
    match label {
        Some(own) => Some(own.as_str()),
        None => Some(fallback),
    }
}

/// Builder of [`FixedScore`] scorers.
#[derive(Debug, Clone)]
pub struct FixedScorerBuilder {
    score: Scalar,
    label: Option<String>,
}

impl FixedScore {
    /// Starts the builder of a scorer that always scores `score`.
    pub fn build(score: Scalar) -> (builder: FixedScorerBuilder)
        ensures
            builder.score() == score,
            builder.label_text() == Some("FixedScore"@),
    {
        FixedScorerBuilder { score, label: None }
    }
}

impl FixedScorerBuilder {
    /// The score that the built scorers hold.
    pub closed spec fn score(&self) -> Scalar {
        self.score
    }

    /// Sets the label.
    pub fn label(self, label: String) -> (builder: Self)
        ensures
            builder.score() == self.score(),
            builder.label_text() == Some(label@),
    {
        FixedScorerBuilder { score: self.score, label: Some(label) }
    }

    /// Makes the scorer.
    pub fn build(&self) -> (scorer: FixedScore)
        ensures
            scorer.0 == self.score(),
    {
        FixedScore(self.score)
    }

    /// The label that the builder goes by, if it has one.
    pub closed spec fn label_text(&self) -> Option<Seq<char>> {
        match self.label {
            Some(own) => Some(own@),
            None => Some("FixedScore"@),
        }
    }
}

impl ScorerBuilder for FixedScorerBuilder {
    fn label(&self) -> (label: Option<&str>)
        ensures
            match label {
                Some(text) => self.label_text() == Some(text@),
                None => self.label_text().is_none(),
            },
    {
        label_or(&self.label, "FixedScore")
    }
}

/// Builder of [`AllOrNothing`] scorers.
#[derive(Debug, Clone)]
pub struct AllOrNothingBuilder {
    threshold: Scalar,
    scorers: Vec<ScorerBuilderHandle>,
    scorer_labels: Vec<String>,
    label: Option<String>,
}

impl AllOrNothing {
    /// Starts the builder of a scorer with this threshold and no children.
    pub fn build(threshold: Scalar) -> (builder: AllOrNothingBuilder)
        ensures
            builder.threshold() == threshold,
            builder.scorers().len() == 0,
            builder.scorer_labels().len() == 0,
            builder.label_text() == Some("AllOrNothing"@),
    {
        let builder = AllOrNothingBuilder {
            threshold,
            scorers: Vec::new(),
            scorer_labels: Vec::new(),
            label: None,
        };
        assert(texts(builder.scorer_labels@) =~= Seq::empty());
        builder
    }
}

impl AllOrNothingBuilder {
    /// The threshold of the built scorers.
    pub closed spec fn threshold(&self) -> Scalar {
        self.threshold
    }

    /// The builders of the children, in the order in which they were added.
    pub closed spec fn scorers(&self) -> Seq<ScorerBuilderHandle> {
        self.scorers@
    }

    /// The labels under which the children are listed.
    pub closed spec fn scorer_labels(&self) -> Seq<Seq<char>> {
        texts(self.scorer_labels@)
    }

    /// Adds a child, which goes by `label`.
    pub fn push(self, scorer: ScorerBuilderHandle, label: Option<String>) -> (builder: Self)
        ensures
            builder.threshold() == self.threshold(),
            builder.scorers() == self.scorers().push(scorer),
            builder.scorer_labels() == self.scorer_labels().push(listed_label(label)),
            builder.label_text() == self.label_text(),
    {
        let mut builder = self;
        list_label(&mut builder.scorer_labels, label);
        builder.scorers.push(scorer);
        builder
    }

    /// Sets the label.
    pub fn label(self, label: String) -> (builder: Self)
        ensures
            builder.threshold() == self.threshold(),
            builder.scorers() == self.scorers(),
            builder.scorer_labels() == self.scorer_labels(),
            builder.label_text() == Some(label@),
    {
        let mut builder = self;
        builder.label = Some(label);
        builder
    }

    /// The builders of the children that the host has to spawn.
    pub fn children(&self) -> (scorers: &Vec<ScorerBuilderHandle>)
        ensures
            scorers@ == self.scorers(),
    {
        &self.scorers
    }

    /// Makes the scorer for children that have been spawned, one for each
    /// builder and in the same order. Without exactly one child for each
    /// builder there is no scorer.
    pub fn build(self, children: Vec<Scorer>) -> (made: Option<AllOrNothing>)
        ensures
            made.is_some() == (children@.len() == self.scorers().len()),
            made matches Some(scorer) ==> scorer.threshold() == self.threshold()
                && scorer.scorers() == children@,
    {
        if children.len() == self.scorers.len() {
            Some(AllOrNothing { threshold: self.threshold, scorers: children })
        } else {
            None
        }
    }

    /// The label that the builder goes by, if it has one.
    pub closed spec fn label_text(&self) -> Option<Seq<char>> {
        match self.label {
            Some(own) => Some(own@),
            None => Some("AllOrNothing"@),
        }
    }
}

impl ScorerBuilder for AllOrNothingBuilder {
    fn label(&self) -> (label: Option<&str>)
        ensures
            match label {
                Some(text) => self.label_text() == Some(text@),
                None => self.label_text().is_none(),
            },
    {
        label_or(&self.label, "AllOrNothing")
    }
}

/// Builder of [`SumOfScorers`] scorers.
#[derive(Debug, Clone)]
pub struct SumOfScorersBuilder {
    threshold: Scalar,
    scorers: Vec<ScorerBuilderHandle>,
    scorer_labels: Vec<String>,
    label: Option<String>,
}

impl SumOfScorers {
    /// Starts the builder of a scorer with this threshold and no children.
    pub fn build(threshold: Scalar) -> (builder: SumOfScorersBuilder)
        ensures
            builder.threshold() == threshold,
            builder.scorers().len() == 0,
            builder.scorer_labels().len() == 0,
            builder.label_text() == Some("SumOfScorers"@),
    {
        let builder = SumOfScorersBuilder {
            threshold,
            scorers: Vec::new(),
            scorer_labels: Vec::new(),
            label: None,
        };
        assert(texts(builder.scorer_labels@) =~= Seq::empty());
        builder
    }

    /// The labels under which the children are listed.
    pub closed spec fn scorer_labels(&self) -> Seq<Seq<char>> {
        texts(self.scorer_labels@)
    }
}

impl SumOfScorersBuilder {
    /// The threshold of the built scorers.
    pub closed spec fn threshold(&self) -> Scalar {
        self.threshold
    }

    /// The builders of the children, in the order in which they were added.
    pub closed spec fn scorers(&self) -> Seq<ScorerBuilderHandle> {
        self.scorers@
    }

    /// The labels under which the children are listed.
    pub closed spec fn scorer_labels(&self) -> Seq<Seq<char>> {
        texts(self.scorer_labels@)
    }

    /// Adds a child, which goes by `label`.
    pub fn push(self, scorer: ScorerBuilderHandle, label: Option<String>) -> (builder: Self)
        ensures
            builder.threshold() == self.threshold(),
            builder.scorers() == self.scorers().push(scorer),
            builder.scorer_labels() == self.scorer_labels().push(listed_label(label)),
            builder.label_text() == self.label_text(),
    {
        let mut builder = self;
        list_label(&mut builder.scorer_labels, label);
        builder.scorers.push(scorer);
        builder
    }

    /// Sets the label.
    pub fn label(self, label: String) -> (builder: Self)
        ensures
            builder.threshold() == self.threshold(),
            builder.scorers() == self.scorers(),
            builder.scorer_labels() == self.scorer_labels(),
            builder.label_text() == Some(label@),
    {
        let mut builder = self;
        builder.label = Some(label);
        builder
    }

    /// The builders of the children that the host has to spawn.
    pub fn children(&self) -> (scorers: &Vec<ScorerBuilderHandle>)
        ensures
            scorers@ == self.scorers(),
    {
        &self.scorers
    }

    /// Makes the scorer for children that have been spawned, one for each
    /// builder and in the same order. Without exactly one child for each
    /// builder there is no scorer.
    pub fn build(self, children: Vec<Scorer>) -> (made: Option<SumOfScorers>)
        ensures
            made.is_some() == (children@.len() == self.scorers().len()),
            made matches Some(scorer) ==> scorer.threshold() == self.threshold()
                && scorer.scorers() == children@
                && scorer.scorer_labels() == self.scorer_labels(),
    {
        if children.len() == self.scorers.len() {
            Some(
                SumOfScorers {
                    threshold: self.threshold,
                    scorers: children,
                    scorer_labels: self.scorer_labels,
                },
            )
        } else {
            None
        }
    }

    /// The label that the builder goes by, if it has one.
    pub closed spec fn label_text(&self) -> Option<Seq<char>> {
        match self.label {
            Some(own) => Some(own@),
            None => Some("SumOfScorers"@),
        }
    }
}

impl ScorerBuilder for SumOfScorersBuilder {
    fn label(&self) -> (label: Option<&str>)
        ensures
            match label {
                Some(text) => self.label_text() == Some(text@),
                None => self.label_text().is_none(),
            },
    {
        label_or(&self.label, "SumOfScorers")
    }
}

/// Builder of [`ProductOfScorers`] scorers.
#[derive(Debug, Clone)]
pub struct ProductOfScorersBuilder {
    threshold: Scalar,
    use_compensation: bool,
    scorers: Vec<ScorerBuilderHandle>,
    scorer_labels: Vec<String>,
    label: Option<String>,
}

impl ProductOfScorers {
    /// Starts the builder of a scorer with this threshold and no children.
    pub fn build(threshold: Scalar) -> (builder: ProductOfScorersBuilder)
        ensures
            builder.threshold() == threshold,
            builder.scorers().len() == 0,
            builder.scorer_labels().len() == 0,
            !builder.compensated(),
            builder.label_text() == Some("ProductOfScorers"@),
    {
        let builder = ProductOfScorersBuilder {
            threshold,
            use_compensation: false,
            scorers: Vec::new(),
            scorer_labels: Vec::new(),
            label: None,
        };
        assert(texts(builder.scorer_labels@) =~= Seq::empty());
        builder
    }

    /// The labels under which the children are listed.
    pub closed spec fn scorer_labels(&self) -> Seq<Seq<char>> {
        texts(self.scorer_labels@)
    }
}

impl ProductOfScorersBuilder {
    /// The threshold of the built scorers.
    pub closed spec fn threshold(&self) -> Scalar {
        self.threshold
    }

    /// Whether the built scorers compensate their product.
    pub closed spec fn compensated(&self) -> bool {
        self.use_compensation
    }

    /// The builders of the children, in the order in which they were added.
    pub closed spec fn scorers(&self) -> Seq<ScorerBuilderHandle> {
        self.scorers@
    }

    /// The labels under which the children are listed.
    pub closed spec fn scorer_labels(&self) -> Seq<Seq<char>> {
        texts(self.scorer_labels@)
    }

    /// Switches the compensation of the product on or off. The more
    /// children a product has the smaller it gets; the compensation makes up
    /// for that.
    pub fn use_compensation(self, use_compensation: bool) -> (builder: Self)
        ensures
            builder.threshold() == self.threshold(),
            builder.scorers() == self.scorers(),
            builder.scorer_labels() == self.scorer_labels(),
            builder.label_text() == self.label_text(),
            builder.compensated() == use_compensation,
    {
        let mut builder = self;
        builder.use_compensation = use_compensation;
        builder
    }

    /// Adds a child, which goes by `label`.
    pub fn push(self, scorer: ScorerBuilderHandle, label: Option<String>) -> (builder: Self)
        ensures
            builder.threshold() == self.threshold(),
            builder.scorers() == self.scorers().push(scorer),
            builder.scorer_labels() == self.scorer_labels().push(listed_label(label)),
            builder.label_text() == self.label_text(),
            builder.compensated() == self.compensated(),
    {
        let mut builder = self;
        list_label(&mut builder.scorer_labels, label);
        builder.scorers.push(scorer);
        builder
    }

    /// Sets the label.
    pub fn label(self, label: String) -> (builder: Self)
        ensures
            builder.threshold() == self.threshold(),
            builder.scorers() == self.scorers(),
            builder.scorer_labels() == self.scorer_labels(),
            builder.label_text() == Some(label@),
            builder.compensated() == self.compensated(),
    {
        let mut builder = self;
        builder.label = Some(label);
        builder
    }

    /// The builders of the children that the host has to spawn.
    pub fn children(&self) -> (scorers: &Vec<ScorerBuilderHandle>)
        ensures
            scorers@ == self.scorers(),
    {
        &self.scorers
    }

    /// Makes the scorer for children that have been spawned, one for each
    /// builder and in the same order. Without exactly one child for each
    /// builder there is no scorer.
    pub fn build(self, children: Vec<Scorer>) -> (made: Option<ProductOfScorers>)
        ensures
            made.is_some() == (children@.len() == self.scorers().len()),
            made matches Some(scorer) ==> scorer.threshold() == self.threshold()
                && scorer.scorers() == children@
                && scorer.scorer_labels() == self.scorer_labels()
                && scorer.use_compensation() == self.compensated(),
    {
        if children.len() == self.scorers.len() {
            Some(
                ProductOfScorers {
                    threshold: self.threshold,
                    use_compensation: self.use_compensation,
                    scorers: children,
                    scorer_labels: self.scorer_labels,
                },
            )
        } else {
            None
        }
    }

    /// The label that the builder goes by, if it has one.
    pub closed spec fn label_text(&self) -> Option<Seq<char>> {
        match self.label {
            Some(own) => Some(own@),
            None => Some("ProductOfScorers"@),
        }
    }
}

impl ScorerBuilder for ProductOfScorersBuilder {
    fn label(&self) -> (label: Option<&str>)
        ensures
            match label {
                Some(text) => self.label_text() == Some(text@),
                None => self.label_text().is_none(),
            },
    {
        label_or(&self.label, "ProductOfScorers")
    }
}

/// Builder of [`WinningScorer`] scorers.
#[derive(Debug, Clone)]
pub struct WinningScorerBuilder {
    threshold: Scalar,
    scorers: Vec<ScorerBuilderHandle>,
    scorer_labels: Vec<String>,
    label: Option<String>,
}

impl WinningScorer {
    /// Starts the builder of a scorer with this threshold and no children.
    pub fn build(threshold: Scalar) -> (builder: WinningScorerBuilder)
        ensures
            builder.threshold() == threshold,
            builder.scorers().len() == 0,
            builder.scorer_labels().len() == 0,
            builder.label_text() == Some("WinningScorer"@),
    {
        let builder = WinningScorerBuilder {
            threshold,
            scorers: Vec::new(),
            scorer_labels: Vec::new(),
            label: None,
        };
        assert(texts(builder.scorer_labels@) =~= Seq::empty());
        builder
    }

    /// The labels under which the children are listed.
    pub closed spec fn scorer_labels(&self) -> Seq<Seq<char>> {
        texts(self.scorer_labels@)
    }
}

impl WinningScorerBuilder {
    /// The threshold of the built scorers.
    pub closed spec fn threshold(&self) -> Scalar {
        self.threshold
    }

    /// The builders of the children, in the order in which they were added.
    pub closed spec fn scorers(&self) -> Seq<ScorerBuilderHandle> {
        self.scorers@
    }

    /// The labels under which the children are listed.
    pub closed spec fn scorer_labels(&self) -> Seq<Seq<char>> {
        texts(self.scorer_labels@)
    }

    /// Adds a child, which goes by `label`.
    pub fn push(self, scorer: ScorerBuilderHandle, label: Option<String>) -> (builder: Self)
        ensures
            builder.threshold() == self.threshold(),
            builder.scorers() == self.scorers().push(scorer),
            builder.scorer_labels() == self.scorer_labels().push(listed_label(label)),
            builder.label_text() == self.label_text(),
    {
        let mut builder = self;
        list_label(&mut builder.scorer_labels, label);
        builder.scorers.push(scorer);
        builder
    }

    /// Sets the label.
    pub fn label(self, label: String) -> (builder: Self)
        ensures
            builder.threshold() == self.threshold(),
            builder.scorers() == self.scorers(),
            builder.scorer_labels() == self.scorer_labels(),
            builder.label_text() == Some(label@),
    {
        let mut builder = self;
        builder.label = Some(label);
        builder
    }

    /// The builders of the children that the host has to spawn.
    pub fn children(&self) -> (scorers: &Vec<ScorerBuilderHandle>)
        ensures
            scorers@ == self.scorers(),
    {
        &self.scorers
    }

    /// Makes the scorer for children that have been spawned, one for each
    /// builder and in the same order. Without exactly one child for each
    /// builder there is no scorer.
    pub fn build(self, children: Vec<Scorer>) -> (made: Option<WinningScorer>)
        ensures
            made.is_some() == (children@.len() == self.scorers().len()),
            made matches Some(scorer) ==> scorer.threshold() == self.threshold()
                && scorer.scorers() == children@
                && scorer.scorer_labels() == self.scorer_labels(),
    {
        if children.len() == self.scorers.len() {
            Some(
                WinningScorer {
                    threshold: self.threshold,
                    scorers: children,
                    scorer_labels: self.scorer_labels,
                },
            )
        } else {
            None
        }
    }

    /// The label that the builder goes by, if it has one.
    pub closed spec fn label_text(&self) -> Option<Seq<char>> {
        match self.label {
            Some(own) => Some(own@),
            None => Some("WinningScorer"@),
        }
    }
}

impl ScorerBuilder for WinningScorerBuilder {
    fn label(&self) -> (label: Option<&str>)
        ensures
            match label {
                Some(text) => self.label_text() == Some(text@),
                None => self.label_text().is_none(),
            },
    {
        label_or(&self.label, "WinningScorer")
    }
}

/// Builder of [`EvaluatingScorer`] scorers.
#[derive(Debug, Clone)]
pub struct EvaluatingScorerBuilder<E: Evaluator> {
    scorer: ScorerBuilderHandle,
    scorer_label: Option<String>,
    evaluator: E,
    label: Option<String>,
}

impl<E: Evaluator> EvaluatingScorer<E> {
    /// Starts the builder of a scorer that passes the score of the child
    /// built by `scorer`, which goes by `scorer_label`, through `evaluator`.
    pub fn build(scorer: ScorerBuilderHandle, scorer_label: Option<String>, evaluator: E) -> (builder:
        EvaluatingScorerBuilder<E>)
        ensures
            builder.scorer() == scorer,
            builder.scorer_label() == scorer_label,
            builder.evaluator() == evaluator,
            builder.label_text() == Some("EvaluatingScorer"@),
    {
        EvaluatingScorerBuilder { scorer, scorer_label, evaluator, label: None }
    }
}

impl<E: Evaluator> EvaluatingScorerBuilder<E> {
    /// The builder of the child.
    pub closed spec fn scorer(&self) -> ScorerBuilderHandle {
        self.scorer
    }

    /// The label of the child.
    pub closed spec fn scorer_label(&self) -> Option<String> {
        self.scorer_label
    }

    /// The curve that the built scorers apply.
    pub closed spec fn evaluator(&self) -> E {
        self.evaluator
    }

    /// The builder of the child that the host has to spawn.
    pub fn child(&self) -> (scorer: ScorerBuilderHandle)
        ensures
            scorer == self.scorer(),
    {
        self.scorer
    }

    /// Makes the scorer for the child that has been spawned.
    pub fn build(self, child: Scorer) -> (made: EvaluatingScorer<E>)
        ensures
            made.scorer() == child,
            made.evaluator() == self.evaluator(),
    {
        EvaluatingScorer { scorer: child, evaluator: self.evaluator }
    }

    /// The label that the builder goes by, if it has one.
    pub closed spec fn label_text(&self) -> Option<Seq<char>> {
        match self.label {
            Some(own) => Some(own@),
            None => Some("EvaluatingScorer"@),
        }
    }
}

impl<E: Evaluator> ScorerBuilder for EvaluatingScorerBuilder<E> {
    fn label(&self) -> (label: Option<&str>)
        ensures
            match label {
                Some(text) => self.label_text() == Some(text@),
                None => self.label_text().is_none(),
            },
    {
        label_or(&self.label, "EvaluatingScorer")
    }
}

/// Builder of [`MeasuredScorer`] scorers.
#[derive(Debug, Clone)]
pub struct MeasuredScorerBuilder<M: Measure> {
    threshold: Scalar,
    measure: M,
    scorers: Vec<(ScorerBuilderHandle, Scalar)>,
    scorer_labels: Vec<String>,
    label: Option<String>,
}

impl<M: Measure> MeasuredScorer<M> {
    /// Starts the builder of a scorer with this threshold and measure, and
    /// no children.
    pub fn build(threshold: Scalar, measure: M) -> (builder: MeasuredScorerBuilder<M>)
        ensures
            builder.threshold() == threshold,
            builder.chosen_measure() == measure,
            builder.scorers().len() == 0,
            builder.scorer_labels().len() == 0,
            builder.label_text() == Some("MeasuredScorer"@),
    {
        let builder = MeasuredScorerBuilder {
            threshold,
            measure,
            scorers: Vec::new(),
            scorer_labels: Vec::new(),
            label: None,
        };
        assert(texts(builder.scorer_labels@) =~= Seq::empty());
        builder
    }
}

/// The children paired with the weights of their builders.
pub open spec fn weighted(
    children: Seq<Scorer>,
    builders: Seq<(ScorerBuilderHandle, Scalar)>,
) -> Seq<(Scorer, Scalar)> {
    Seq::new(children.len(), |i: int| (children[i], builders[i].1))
}

impl<M: Measure> MeasuredScorerBuilder<M> {
    /// The threshold of the built scorers.
    pub closed spec fn threshold(&self) -> Scalar {
        self.threshold
    }

    /// The measure of the built scorers.
    pub closed spec fn chosen_measure(&self) -> M {
        self.measure
    }

    /// The builders of the children with their weights, in the order in
    /// which they were added.
    pub closed spec fn scorers(&self) -> Seq<(ScorerBuilderHandle, Scalar)> {
        self.scorers@
    }

    /// The labels under which the children are listed.
    pub closed spec fn scorer_labels(&self) -> Seq<Seq<char>> {
        texts(self.scorer_labels@)
    }

    /// Sets the measure that combines the children.
    pub fn measure<N: Measure>(self, measure: N) -> (builder: MeasuredScorerBuilder<N>)
        ensures
            builder.threshold() == self.threshold(),
            builder.chosen_measure() == measure,
            builder.scorers() == self.scorers(),
            builder.scorer_labels() == self.scorer_labels(),
            builder.label_text() == self.label_text(),
    {
        MeasuredScorerBuilder {
            threshold: self.threshold,
            measure,
            scorers: self.scorers,
            scorer_labels: self.scorer_labels,
            label: self.label,
        }
    }

    /// Adds a child, which goes by `label` and counts with `weight`.
    pub fn push(self, scorer: ScorerBuilderHandle, label: Option<String>, weight: Scalar) -> (builder:
        Self)
        ensures
            builder.threshold() == self.threshold(),
            builder.chosen_measure() == self.chosen_measure(),
            builder.scorers() == self.scorers().push((scorer, weight)),
            builder.scorer_labels() == self.scorer_labels().push(listed_label(label)),
            builder.label_text() == self.label_text(),
    {
        let mut builder = self;
        list_label(&mut builder.scorer_labels, label);
        builder.scorers.push((scorer, weight));
        builder
    }

    /// Sets the label.
    pub fn label(self, label: String) -> (builder: Self)
        ensures
            builder.threshold() == self.threshold(),
            builder.chosen_measure() == self.chosen_measure(),
            builder.scorers() == self.scorers(),
            builder.scorer_labels() == self.scorer_labels(),
            builder.label_text() == Some(label@),
    {
        let mut builder = self;
        builder.label = Some(label);
        builder
    }

    /// The builders of the children that the host has to spawn, with their
    /// weights.
    pub fn children(&self) -> (scorers: &Vec<(ScorerBuilderHandle, Scalar)>)
        ensures
            scorers@ == self.scorers(),
    {
        &self.scorers
    }

    /// Makes the scorer for children that have been spawned, one for each
    /// builder and in the same order; each child gets the weight of its
    /// builder. Without exactly one child for each builder there is no
    /// scorer.
    pub fn build(self, children: Vec<Scorer>) -> (made: Option<MeasuredScorer<M>>)
        ensures
            made.is_some() == (children@.len() == self.scorers().len()),
            made matches Some(scorer) ==> scorer.threshold() == self.threshold()
                && scorer.measure() == self.chosen_measure() && scorer.scorers() == weighted(
                children@,
                self.scorers(),
            ),
    {
        let len = children.len();
        if len != self.scorers.len() {
            return None;
        }
        let mut paired: Vec<(Scorer, Scalar)> = Vec::new();
        let mut i: usize = 0;
        while i < len
            invariant
                0 <= i <= len,
                children@.len() == len,
                self.scorers@.len() == len,
                paired@.len() == i,
                forall|j: int|
                    0 <= j < i ==> #[trigger] paired@[j] == (children@[j], self.scorers@[j].1),
            decreases len - i,
        {
            paired.push((children[i], self.scorers[i].1));
            i = i + 1;
        }
        assert(paired@ =~= weighted(children@, self.scorers@));
        Some(MeasuredScorer { threshold: self.threshold, measure: self.measure, scorers: paired })
    }

    /// The label that the builder goes by, if it has one.
    pub closed spec fn label_text(&self) -> Option<Seq<char>> {
        match self.label {
            Some(own) => Some(own@),
            None => Some("MeasuredScorer"@),
        }
    }
}

impl<M: Measure> ScorerBuilder for MeasuredScorerBuilder<M> {
    fn label(&self) -> (label: Option<&str>)
        ensures
            match label {
                Some(text) => self.label_text() == Some(text@),
                None => self.label_text().is_none(),
            },
    {
        label_or(&self.label, "MeasuredScorer")
    }
}

} // verus!
