use char_gpt::vocab::{position_of, Vocabulary, VocabularyError};

#[test]
fn letters_and_space_form_a_vocabulary() {
    let v = Vocabulary::from_symbols("abcdefghijklmnopqrstuvwxyz ".chars().collect()).unwrap();
    assert_eq!(v.size(), 27);
    assert_eq!(v.index_of('a'), Some(0));
    assert_eq!(v.index_of(' '), Some(26));
    assert_eq!(v.index_of('Z'), None);
    assert_eq!(v.symbol_at(25), Some('z'));
    assert_eq!(v.symbol_at(27), None);
    assert_eq!(v.symbols().len(), 27);
}

#[test]
fn empty_vocabulary_is_refused() {
    assert_eq!(Vocabulary::from_symbols(Vec::new()).err(), Some(VocabularyError::Empty));
}

#[test]
fn repeated_symbol_is_refused() {
    assert_eq!(Vocabulary::from_symbols("abca".chars().collect()).err(), Some(VocabularyError::Duplicate));
    assert_eq!(Vocabulary::from_symbols("aa".chars().collect()).err(), Some(VocabularyError::Duplicate));
}

#[test]
fn position_is_the_first_occurrence() {
    let s: Vec<char> = "abab".chars().collect();
    assert_eq!(position_of(&s, 'b'), Some(1));
    assert_eq!(position_of(&s, 'c'), None);
    assert_eq!(position_of(&[], 'a'), None);
}
