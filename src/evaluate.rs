use vstd::prelude::*;

verus! {

/// Number of positions at which `predicted` and `target` agree.
pub open spec fn matches_count(predicted: Seq<usize>, target: Seq<usize>) -> nat
    decreases target.len(),
{
    if target.len() == 0 {
        0
    } else {
        matches_count(predicted, target.drop_last())
            + if predicted[target.len() - 1] == target.last() { 1nat } else { 0nat }
    }
}

/// Total number of target positions over a dataset.
pub open spec fn total_positions(targets: Seq<Vec<usize>>) -> nat
    decreases targets.len(),
{
    if targets.len() == 0 {
        0
    } else {
        total_positions(targets.drop_last()) + targets.last()@.len()
    }
}

/// Total number of correct predictions over a dataset.
pub open spec fn total_matches(predictions: Seq<Vec<usize>>, targets: Seq<Vec<usize>>) -> nat
    decreases targets.len(),
{
    if targets.len() == 0 {
        0
    } else {
        total_matches(predictions, targets.drop_last())
            + matches_count(predictions[targets.len() - 1]@, targets.last()@)
    }
}

/// Each prediction row is as long as its target row, and there are as many rows.
pub open spec fn aligned(predictions: Seq<Vec<usize>>, targets: Seq<Vec<usize>>) -> bool {
    &&& predictions.len() == targets.len()
    &&& forall|k: int| 0 <= k < targets.len() ==> (#[trigger] predictions[k])@.len() == targets[k]@.len()
}

pub proof fn lemma_matches_at_most_len(predicted: Seq<usize>, target: Seq<usize>)
    ensures
        matches_count(predicted, target) <= target.len(),
    decreases target.len(),
{
    if target.len() > 0 {
        lemma_matches_at_most_len(predicted, target.drop_last());
    }
}

/// Over every dataset, the correct predictions are at most the positions:
/// an accuracy never exceeds one.
pub proof fn lemma_matches_at_most_positions(predictions: Seq<Vec<usize>>, targets: Seq<Vec<usize>>)
    ensures
        total_matches(predictions, targets) <= total_positions(targets),
    decreases targets.len(),
{
    if targets.len() > 0 {
        lemma_matches_at_most_positions(predictions, targets.drop_last());
        lemma_matches_at_most_len(predictions[targets.len() - 1]@, targets.last()@);
    }
}

/// Number of positions at which `predicted` and `target` agree.
pub fn count_correct(predicted: &[usize], target: &[usize]) -> (r: usize)
    requires
        predicted@.len() == target@.len(),
    ensures
        r == matches_count(predicted@, target@),
{
    let mut correct: usize = 0;
    let mut k: usize = 0;
    while k < target.len()
        invariant
            predicted@.len() == target@.len(),
            k <= target@.len(),
            correct == matches_count(predicted@, target@.take(k as int)),
        decreases target@.len() - k,
    {
        proof {
            lemma_matches_at_most_len(predicted@, target@.take(k as int));
            assert(target@.take(k + 1).drop_last() =~= target@.take(k as int));
        }
        if predicted[k] == target[k] {
            correct = correct + 1;
        }
        k = k + 1;
    }
    assert(target@.take(k as int) =~= target@);
    correct
}

/// Why a dataset cannot be scored.
#[derive(Debug, Clone, Copy, PartialEq, Eq, Structural)]
pub enum EvalError {
    /// The predictions and the targets differ in number or in a row's length.
    LengthMismatch,
    /// There is no target position to score.
    EmptyDataset,
}

/// An accuracy as the fraction `correct / total`, with `0 <= correct <= total`
/// and `total > 0`.
#[derive(Debug, Clone, Copy, PartialEq, Eq, Structural)]
pub struct Accuracy {
    pub correct: usize,
    pub total: usize,
}

/// Scores next-token predictions: `predictions[k][i]` is the symbol predicted
/// at position `i` of sample `k`, `targets[k][i]` the true one. Returns the
/// number of correct predictions over the number of positions.
pub fn evaluate(predictions: &[Vec<usize>], targets: &[Vec<usize>]) -> (r: Result<Accuracy, EvalError>)
    requires
        total_positions(targets@) <= usize::MAX,
    ensures
        !aligned(predictions@, targets@) ==> r == Err::<Accuracy, EvalError>(EvalError::LengthMismatch),
        aligned(predictions@, targets@) && total_positions(targets@) == 0
            ==> r == Err::<Accuracy, EvalError>(EvalError::EmptyDataset),
        aligned(predictions@, targets@) && total_positions(targets@) > 0 ==> r == Ok::<Accuracy, EvalError>(
            Accuracy {
                correct: total_matches(predictions@, targets@) as usize,
                total: total_positions(targets@) as usize,
            },
        ),
        r matches Ok(a) ==> a.correct <= a.total && a.total > 0,
{
    if predictions.len() != targets.len() {
        return Err(EvalError::LengthMismatch);
    }
    let mut correct: usize = 0;
    let mut total: usize = 0;
    let mut k: usize = 0;
    while k < targets.len()
        invariant
            predictions@.len() == targets@.len(),
            total_positions(targets@) <= usize::MAX,
            k <= targets@.len(),
            forall|m: int| 0 <= m < k ==> (#[trigger] predictions@[m])@.len() == targets@[m]@.len(),
            correct == total_matches(predictions@, targets@.take(k as int)),
            total == total_positions(targets@.take(k as int)),
        decreases targets@.len() - k,
    {
        if predictions[k].len() != targets[k].len() {
            return Err(EvalError::LengthMismatch);
        }
        proof {
            let next = targets@.take(k + 1);
            assert(next.drop_last() =~= targets@.take(k as int));
            lemma_positions_prefix(targets@, k + 1);
            lemma_matches_at_most_positions(predictions@, next);
        }
        let c = count_correct(predictions[k].as_slice(), targets[k].as_slice());
        correct = correct + c;
        total = total + targets[k].len();
        k = k + 1;
    }
    assert(targets@.take(k as int) =~= targets@);
    if total == 0 {
        return Err(EvalError::EmptyDataset);
    }
    proof {
        lemma_matches_at_most_positions(predictions@, targets@);
    }
    Ok(Accuracy { correct, total })
}

proof fn lemma_positions_prefix(targets: Seq<Vec<usize>>, n: int)
    requires
        0 <= n <= targets.len(),
    ensures
        total_positions(targets.take(n)) <= total_positions(targets),
    decreases targets.len(),
{
    if n < targets.len() {
        assert(targets.drop_last().take(n) =~= targets.take(n));
        lemma_positions_prefix(targets.drop_last(), n);
    } else {
        assert(targets.take(n) =~= targets);
    }
}

} // verus!
