use vstd::prelude::*;
use rand::rngs::StdRng;
use rand::seq::SliceRandom;
use crate::vocab::position_of;

verus! {

/// rand's seedable `StdRng`, carried through opaquely: nothing is assumed
/// of its state.
#[verifier::external_type_specification]
#[verifier::external_body]
pub struct ExStdRng(StdRng);

/// Relies on rand's `SliceRandom::choose` for slices: `None` for an empty
/// slice, otherwise one of the slice's elements.
#[verifier::external_body]
fn choose_symbol(symbols: &[char], rng: &mut StdRng) -> (r: Option<char>)
    ensures
        r is None <==> symbols@.len() == 0,
        r matches Some(c) ==> symbols@.contains(c),
{
    symbols.choose(rng).copied()
}

/// Why no dataset can be drawn.
#[derive(Debug, Clone, Copy, PartialEq, Eq, Structural)]
pub enum DataError {
    /// The drawn sequences must hold at least two symbols.
    SequenceTooShort,
    /// There is no symbol to draw.
    EmptyVocabulary,
}

/// Every index of `s` lies in `[0, vocab_size)`.
pub open spec fn indices_below(s: Seq<usize>, vocab_size: nat) -> bool {
    forall|i: int| 0 <= i < s.len() ==> s[i] < vocab_size
}

/// `input` and `target` are the two overlapping halves of one sequence of
/// `seq_len` indices below `vocab_size`: the sequence without its last
/// element, and without its first.
pub open spec fn valid_sample(input: Seq<usize>, target: Seq<usize>, seq_len: nat, vocab_size: nat) -> bool {
    &&& seq_len >= 2
    &&& input.len() == seq_len - 1
    &&& target.len() == seq_len - 1
    &&& indices_below(input, vocab_size)
    &&& indices_below(target, vocab_size)
    &&& forall|i: int| 0 <= i < input.len() - 1 ==> #[trigger] target[i] == input[i + 1]
}

/// `inputs` and `targets` hold `num_samples` valid samples, pairwise.
pub open spec fn valid_dataset(
    inputs: Seq<Vec<usize>>,
    targets: Seq<Vec<usize>>,
    seq_len: nat,
    vocab_size: nat,
    num_samples: nat,
) -> bool {
    &&& inputs.len() == num_samples
    &&& targets.len() == num_samples
    &&& forall|k: int| 0 <= k < num_samples ==> valid_sample(#[trigger] inputs[k]@, targets[k]@, seq_len, vocab_size)
}

/// Draws `len` indices of symbols of `vocab`, each uniformly and independently.
fn draw_indices(vocab: &[char], len: usize, rng: &mut StdRng) -> (r: Vec<usize>)
    requires
        vocab@.len() > 0,
    ensures
        r@.len() == len,
        indices_below(r@, vocab@.len()),
{
    let mut seq: Vec<usize> = Vec::new();
    let mut k: usize = 0;
    while k < len
        invariant
            vocab@.len() > 0,
            k <= len,
            seq@.len() == k,
            indices_below(seq@, vocab@.len()),
        decreases len - k,
    {
        let c = choose_symbol(vocab, rng).unwrap();
        let i = position_of(vocab, c).unwrap();
        seq.push(i);
        k = k + 1;
    }
    seq
}

/// Splits a drawn sequence into its input (all but the last index) and its
/// target (all but the first).
fn split_sequence(seq: &Vec<usize>) -> (r: (Vec<usize>, Vec<usize>))
    requires
        seq@.len() >= 2,
    ensures
        r.0@ == seq@.take(seq@.len() - 1),
        r.1@ == seq@.skip(1),
{
    let n = seq.len();
    let mut input: Vec<usize> = Vec::new();
    let mut target: Vec<usize> = Vec::new();
    let mut k: usize = 0;
    while k < n - 1
        invariant
            n == seq@.len(),
            n >= 2,
            k <= n - 1,
            input@ == seq@.take(k as int),
            target@ == seq@.subrange(1, k + 1),
        decreases n - 1 - k,
    {
        input.push(seq[k]);
        target.push(seq[k + 1]);
        k = k + 1;
        assert(input@ =~= seq@.take(k as int));
        assert(target@ =~= seq@.subrange(1, k + 1));
    }
    assert(target@ =~= seq@.skip(1));
    (input, target)
}

/// Draws `num_samples` samples from `vocab` with `rng`: each is a sequence of
/// `seq_len` symbol indices drawn uniformly with replacement, split into an
/// input (indices `0 .. seq_len - 1`) and a target (indices `1 .. seq_len`).
pub fn generate_synthetic_data(
    vocab: &[char],
    seq_len: usize,
    num_samples: usize,
    rng: &mut StdRng,
) -> (r: Result<(Vec<Vec<usize>>, Vec<Vec<usize>>), DataError>)
    ensures
        seq_len < 2 ==> r == Err::<(Vec<Vec<usize>>, Vec<Vec<usize>>), DataError>(DataError::SequenceTooShort),
        seq_len >= 2 && vocab@.len() == 0 ==> r == Err::<(Vec<Vec<usize>>, Vec<Vec<usize>>), DataError>(DataError::EmptyVocabulary),
        seq_len >= 2 && vocab@.len() > 0 ==> r is Ok,
        r matches Ok((inputs, targets)) ==> valid_dataset(inputs@, targets@, seq_len as nat, vocab@.len(), num_samples as nat),
{
    if seq_len < 2 {
        return Err(DataError::SequenceTooShort);
    }
    if vocab.len() == 0 {
        return Err(DataError::EmptyVocabulary);
    }
    let mut inputs: Vec<Vec<usize>> = Vec::new();
    let mut targets: Vec<Vec<usize>> = Vec::new();
    let mut k: usize = 0;
    while k < num_samples
        invariant
            seq_len >= 2,
            vocab@.len() > 0,
            k <= num_samples,
            valid_dataset(inputs@, targets@, seq_len as nat, vocab@.len(), k as nat),
        decreases num_samples - k,
    {
        let seq = draw_indices(vocab, seq_len, rng);
        let (input, target) = split_sequence(&seq);
        assert(valid_sample(input@, target@, seq_len as nat, vocab@.len())) by {
            assert forall|i: int| 0 <= i < input@.len() - 1 implies #[trigger] target@[i] == input@[i + 1] by {
                assert(target@[i] == seq@[i + 1]);
            }
        }
        inputs.push(input);
        targets.push(target);
        k = k + 1;
    }
    Ok((inputs, targets))
}

} // verus!
