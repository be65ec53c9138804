//! Pickers are used by thinkers to determine which of their choices wins.

use std::collections::HashMap;
use vstd::prelude::*;

use crate::choices::all_scored;
use crate::choices::choice_scores;
use crate::choices::Choice;
use crate::scalar::Scalar;
use crate::scalar::ZERO_BITS;
use crate::scorers::Score;

verus! {

/// Required trait for pickers. A picker is given the choices and the table
/// of scores, and names the choice that wins, if any, by its position.
///
/// A picker has to be a function of its arguments: asked twice about the
/// same choices and scores it gives the same answer. A thinker takes an
/// answer that names no choice for no answer at all.
pub trait Picker {
    /// Picks the winning choice.
    fn pick(&self, choices: &Vec<Choice>, scores: &HashMap<u64, Score>) -> (picked: Option<usize>)
        requires
            all_scored(choices@, scores@),
    ;
}

/// The position that a picker names, as a number in contracts.
pub open spec fn position(picked: Option<usize>) -> Option<int> {
    match picked {
        Some(i) => Some(i as int),
        None => None,
    }
}

/// True when `i` is the first position whose score is at least `threshold`.
pub open spec fn is_first_to_score(scores: Seq<Scalar>, threshold: Scalar, i: int) -> bool {
    &&& 0 <= i < scores.len()
    &&& scores[i].ge(threshold)
    &&& forall|j: int| 0 <= j < i ==> !(#[trigger] scores[j]).ge(threshold)
}

/// The first position whose score is at least `threshold`, if there is one.
pub open spec fn first_to_score(scores: Seq<Scalar>, threshold: Scalar) -> Option<int> {
    if exists|i: int| is_first_to_score(scores, threshold, i) {
        Some(choose|i: int| is_first_to_score(scores, threshold, i))
    } else {
        None
    }
}

/// Picker that chooses the first choice whose score is at least its
/// threshold, so that the order of the choices is their priority.
#[derive(Debug, Clone, Copy)]
pub struct FirstToScore {
    pub threshold: Scalar,
}

impl FirstToScore {
    /// A picker with this threshold.
    pub fn new(threshold: Scalar) -> (picker: Self)
        ensures
            picker.threshold == threshold,
    {
        FirstToScore { threshold }
    }
}

impl Default for FirstToScore {
    fn default() -> (picker: Self)
        ensures
            picker.threshold.bits == ZERO_BITS,
    {
        FirstToScore { threshold: Scalar { bits: ZERO_BITS } }
    }
}

impl Picker for FirstToScore {
    /// Picks the first choice whose score is at least the threshold.
    fn pick(&self, choices: &Vec<Choice>, scores: &HashMap<u64, Score>) -> (picked: Option<usize>)
        ensures
            picked matches Some(i) ==> i < choices@.len(),
            position(picked) == first_to_score(choice_scores(choices@, scores@), self.threshold),
    {
        let ghost listed = choice_scores(choices@, scores@);
        let len = choices.len();
        let mut i: usize = 0;
        while i < len
            invariant
                0 <= i <= len,
                choices@.len() == len,
                all_scored(choices@, scores@),
                listed == choice_scores(choices@, scores@),
                forall|j: int| 0 <= j < i ==> !(#[trigger] listed[j]).ge(self.threshold),
            decreases len - i,
        {
            let value = choices[i].calculate(scores);
            assert(value == listed[i as int]);
            if value >= self.threshold {
                proof {
                    assert(is_first_to_score(listed, self.threshold, i as int));
                    lemma_first_to_score_is(listed, self.threshold, i as int);
                }
                return Some(i);
            }
            i = i + 1;
        }
        proof {
            assert forall|k: int| !is_first_to_score(listed, self.threshold, k) by {
                if 0 <= k < listed.len() {
                    assert(!listed[k].ge(self.threshold));
                }
            }
        }
        None
    }
}

/// There is at most one first position to reach the threshold, so
/// `first_to_score` names it.
pub proof fn lemma_first_to_score_is(scores: Seq<Scalar>, threshold: Scalar, i: int)
    requires
        is_first_to_score(scores, threshold, i),
    ensures
        first_to_score(scores, threshold) == Some(i),
{
    let k = choose|k: int| is_first_to_score(scores, threshold, k);
    if k < i {
        assert(!scores[k].ge(threshold));
    }
    if i < k {
        assert(!scores[i].ge(threshold));
    }
}

/// The leader after looking at some scores: the position that leads, if any
/// score has qualified yet, and the score to beat.
pub struct Lead {
    pub position: Option<int>,
    pub score: Scalar,
}

/// True when `score` takes the lead: it is neither at or below the `bar`
/// nor at or below the score to `beat`.
pub open spec fn takes_lead(score: Scalar, bar: Scalar, beat: Scalar) -> bool {
    !(score.le(bar) || score.le(beat))
}

/// The leader among the first `n` scores. The score to beat starts at zero,
/// and each score that takes the lead becomes the score to beat, so that of
/// several equal scores the first one keeps the lead.
pub open spec fn lead_after(scores: Seq<Scalar>, bar: Scalar, n: int) -> Lead
    decreases n,
{
    if n <= 0 {
        Lead { position: None, score: Scalar { bits: ZERO_BITS } }
    } else {
        let before = lead_after(scores, bar, n - 1);
        if takes_lead(scores[n - 1], bar, before.score) {
            Lead { position: Some(n - 1), score: scores[n - 1] }
        } else {
            before
        }
    }
}

/// The position of the highest score above `bar` and above zero, the first
/// one if several are equal; none if no score is above both.
pub open spec fn highest_above(scores: Seq<Scalar>, bar: Scalar) -> Option<int> {
    lead_after(scores, bar, scores.len() as int).position
}

/// True when no number in the list is NaN.
pub open spec fn no_nan(scores: Seq<Scalar>) -> bool {
    forall|i: int| 0 <= i < scores.len() ==> !(#[trigger] scores[i]).is_nan()
}

/// True when `i` is the first position that holds the highest score, and
/// that score is above `bar` and above zero.
pub open spec fn is_first_highest(scores: Seq<Scalar>, bar: Scalar, i: int) -> bool {
    &&& 0 <= i < scores.len()
    &&& scores[i].gt(bar)
    &&& scores[i].gt(Scalar { bits: ZERO_BITS })
    &&& forall|j: int| 0 <= j < i ==> (#[trigger] scores[j]).lt(scores[i])
    &&& forall|j: int| 0 <= j < scores.len() ==> (#[trigger] scores[j]).le(scores[i])
}

/// Among the first `n` scores, none of them NaN, the leader is the first
/// position that holds the highest score, provided that score is above the
/// bar and above zero; otherwise nobody leads.
proof fn lemma_lead_after(scores: Seq<Scalar>, bar: Scalar, n: int)
    requires
        no_nan(scores),
        !bar.is_nan(),
        0 <= n <= scores.len(),
    ensures
        ({
            let lead = lead_after(scores, bar, n);
            &&& !lead.score.is_nan()
            &&& lead.score.key() >= 0
            &&& match lead.position {
                Some(i) => {
                    &&& is_first_highest(scores.take(n), bar, i)
                    &&& lead.score == scores[i]
                },
                None => {
                    &&& lead.score.bits == ZERO_BITS
                    &&& forall|j: int|
                        0 <= j < n ==> (#[trigger] scores[j]).le(bar) || scores[j].le(
                            Scalar { bits: ZERO_BITS },
                        )
                },
            }
        }),
    decreases n,
{
    if n > 0 {
        lemma_lead_after(scores, bar, n - 1);
        let before = lead_after(scores, bar, n - 1);
        let s = scores[n - 1];
        let shorter = scores.take(n - 1);
        let longer = scores.take(n);
        assert(!s.is_nan());
        assert(forall|j: int| 0 <= j < n - 1 ==> shorter[j] == longer[j]);
        if takes_lead(s, bar, before.score) {
            assert forall|j: int| 0 <= j < n - 1 implies (#[trigger] longer[j]).lt(s) by {
                assert(!scores[j].is_nan());
                match before.position {
                    Some(i) => {
                        assert(shorter[j].le(shorter[i]));
                    },
                    None => {
                        assert(scores[j].le(bar) || scores[j].le(Scalar { bits: ZERO_BITS }));
                    },
                }
            }
            assert(is_first_highest(longer, bar, n - 1));
        } else {
            match before.position {
                Some(i) => {
                    assert forall|j: int| 0 <= j < n implies (#[trigger] longer[j]).le(
                        longer[i],
                    ) by {
                        if j < n - 1 {
                            assert(shorter[j].le(shorter[i]));
                        }
                    }
                    assert forall|j: int| 0 <= j < i implies (#[trigger] longer[j]).lt(
                        longer[i],
                    ) by {
                        assert(shorter[j].lt(shorter[i]));
                    }
                    assert(is_first_highest(longer, bar, i));
                },
                None => {},
            }
        }
    }
}

/// For scores without NaN, `highest_above` names the first position that
/// holds the highest score if that score is above the bar and above zero,
/// and nothing otherwise.
pub proof fn lemma_highest_above(scores: Seq<Scalar>, bar: Scalar, i: int)
    requires
        no_nan(scores),
        !bar.is_nan(),
    ensures
        highest_above(scores, bar) == Some(i) <==> is_first_highest(scores, bar, i),
        highest_above(scores, bar).is_none() <==> forall|j: int|
            0 <= j < scores.len() ==> (#[trigger] scores[j]).le(bar) || scores[j].le(
                Scalar { bits: ZERO_BITS },
            ),
{
    let n = scores.len() as int;
    lemma_lead_after(scores, bar, n);
    assert(scores.take(n) =~= scores);
    match highest_above(scores, bar) {
        Some(k) => {
            assert(is_first_highest(scores, bar, k));
            assert(!(scores[k].le(bar) || scores[k].le(Scalar { bits: ZERO_BITS })));
            if is_first_highest(scores, bar, i) && i != k {
                if i < k {
                    assert(scores[i].lt(scores[k]));
                    assert(scores[k].le(scores[i]));
                } else {
                    assert(scores[k].lt(scores[i]));
                    assert(scores[i].le(scores[k]));
                }
            }
        },
        None => {
            if is_first_highest(scores, bar, i) {
                assert(scores[i].le(bar) || scores[i].le(Scalar { bits: ZERO_BITS }));
            }
        },
    }
}

/// Scans the choices for the highest score above `bar` and above zero.
fn pick_highest_above(choices: &Vec<Choice>, scores: &HashMap<u64, Score>, bar: Scalar) -> (picked:
    Option<usize>)
    requires
        all_scored(choices@, scores@),
    ensures
        picked matches Some(i) ==> i < choices@.len(),
        position(picked) == highest_above(choice_scores(choices@, scores@), bar),
{
    let ghost listed = choice_scores(choices@, scores@);
    let len = choices.len();
    let mut best: Option<usize> = None;
    let mut beat = Scalar::zero();
    let mut i: usize = 0;
    while i < len
        invariant
            0 <= i <= len,
            choices@.len() == len,
            all_scored(choices@, scores@),
            listed == choice_scores(choices@, scores@),
            beat == lead_after(listed, bar, i as int).score,
            best matches Some(b) ==> b < i,
            match best {
                Some(b) => lead_after(listed, bar, i as int).position == Some(b as int),
                None => lead_after(listed, bar, i as int).position.is_none(),
            },
        decreases len - i,
    {
        let value = choices[i].calculate(scores);
        assert(value == listed[i as int]);
        if !(value <= bar || value <= beat) {
            beat = value;
            best = Some(i);
        }
        i = i + 1;
    }
    best
}

/// Picker that chooses the choice with the highest score above zero, and
/// the first such choice in case of a tie.
#[derive(Debug, Clone, Copy, Default)]
pub struct Highest;

impl Picker for Highest {
    /// Picks the first of the choices with the highest score above zero.
    fn pick(&self, choices: &Vec<Choice>, scores: &HashMap<u64, Score>) -> (picked: Option<usize>)
        ensures
            picked matches Some(i) ==> i < choices@.len(),
            position(picked) == highest_above(
                choice_scores(choices@, scores@),
                Scalar { bits: ZERO_BITS },
            ),
    {
        pick_highest_above(choices, scores, Scalar::zero())
    }
}

/// Picker that chooses the choice with the highest score above its
/// threshold, and the first such choice in case of a tie.
#[derive(Debug, Clone, Copy)]
pub struct HighestToScore {
    pub threshold: Scalar,
}

impl HighestToScore {
    /// A picker with this threshold.
    pub fn new(threshold: Scalar) -> (picker: Self)
        ensures
            picker.threshold == threshold,
    {
        HighestToScore { threshold }
    }
}

impl Default for HighestToScore {
    fn default() -> (picker: Self)
        ensures
            picker.threshold.bits == ZERO_BITS,
    {
        HighestToScore { threshold: Scalar { bits: ZERO_BITS } }
    }
}

impl Picker for HighestToScore {
    /// Picks the first of the choices with the highest score above the
    /// threshold and above zero.
    fn pick(&self, choices: &Vec<Choice>, scores: &HashMap<u64, Score>) -> (picked: Option<usize>)
        ensures
            picked matches Some(i) ==> i < choices@.len(),
            position(picked) == highest_above(choice_scores(choices@, scores@), self.threshold),
    {
        pick_highest_above(choices, scores, self.threshold)
    }
}

} // verus!
