use char_gpt::data::{generate_synthetic_data, DataError};
use rand::rngs::StdRng;
use rand::SeedableRng;

#[test]
fn test_data_generation_shapes() {
    let vocab: Vec<char> = "abc".chars().collect();
    let mut rng = StdRng::seed_from_u64(7);
    let (inputs, targets) = generate_synthetic_data(&vocab, 4, 10, &mut rng).unwrap();
    assert_eq!(inputs.len(), 10);
    assert_eq!(targets.len(), 10);
    for (input, target) in inputs.iter().zip(targets.iter()) {
        assert_eq!(input.len(), 3);
        assert_eq!(target.len(), 3);
    }
}

#[test]
fn scenario_three_symbols_ten_samples() {
    let vocab: Vec<char> = "abc".chars().collect();
    let mut rng = StdRng::seed_from_u64(11);
    let (inputs, targets) = generate_synthetic_data(&vocab, 4, 10, &mut rng).unwrap();
    assert_eq!(inputs.len(), 10);
    assert_eq!(targets.len(), 10);
    for (input, target) in inputs.iter().zip(targets.iter()) {
        assert_eq!(input.len(), 3);
        assert_eq!(target.len(), 3);
        assert!(input.iter().all(|&i| i < 3));
        assert!(target.iter().all(|&i| i < 3));
        assert_eq!(input[1], target[0]);
        assert_eq!(input[2], target[1]);
    }
}

#[test]
fn dataset_length_matches_request() {
    let vocab: Vec<char> = "abcdefghijklmnopqrstuvwxyz ".chars().collect();
    let mut rng = StdRng::seed_from_u64(3);
    for n in [0usize, 1, 5, 37] {
        let (inputs, targets) = generate_synthetic_data(&vocab, 5, n, &mut rng).unwrap();
        assert_eq!(inputs.len(), n);
        assert_eq!(targets.len(), n);
    }
}

#[test]
fn shortest_sequence_gives_one_position() {
    let vocab: Vec<char> = "xy".chars().collect();
    let mut rng = StdRng::seed_from_u64(5);
    let (inputs, targets) = generate_synthetic_data(&vocab, 2, 4, &mut rng).unwrap();
    for (input, target) in inputs.iter().zip(targets.iter()) {
        assert_eq!(input.len(), 1);
        assert_eq!(target.len(), 1);
    }
}

#[test]
fn sequence_too_short_is_rejected() {
    let vocab: Vec<char> = "abc".chars().collect();
    let mut rng = StdRng::seed_from_u64(1);
    assert_eq!(generate_synthetic_data(&vocab, 1, 10, &mut rng), Err(DataError::SequenceTooShort));
    assert_eq!(generate_synthetic_data(&vocab, 0, 10, &mut rng), Err(DataError::SequenceTooShort));
}

#[test]
fn empty_vocabulary_is_rejected() {
    let vocab: Vec<char> = Vec::new();
    let mut rng = StdRng::seed_from_u64(1);
    assert_eq!(generate_synthetic_data(&vocab, 4, 10, &mut rng), Err(DataError::EmptyVocabulary));
}

#[test]
fn same_seed_gives_same_dataset() {
    let vocab: Vec<char> = "abcd".chars().collect();
    let mut a = StdRng::seed_from_u64(99);
    let mut b = StdRng::seed_from_u64(99);
    let first = generate_synthetic_data(&vocab, 6, 20, &mut a).unwrap();
    let second = generate_synthetic_data(&vocab, 6, 20, &mut b).unwrap();
    assert_eq!(first, second);
}

#[test]
fn draws_reach_every_symbol() {
    let vocab: Vec<char> = "abc".chars().collect();
    let mut rng = StdRng::seed_from_u64(2024);
    let (inputs, _) = generate_synthetic_data(&vocab, 11, 100, &mut rng).unwrap();
    let mut seen = [false; 3];
    for input in &inputs {
        for &i in input {
            seen[i] = true;
        }
    }
    assert_eq!(seen, [true, true, true]);
}
