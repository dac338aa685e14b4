use char_gpt::model::{add_shape, matmul_shape, transpose_shape, ModelConfig, ModelError, Shape};

#[test]
fn model_output_shape_from_config() {
    let model = ModelConfig::new(10, 32).unwrap();
    let input: Vec<usize> = vec![1, 2, 3];
    assert_eq!(model.forward_shape(&input), Ok(Shape { rows: 3, cols: 10 }));
}

#[test]
fn output_shape_follows_input_length() {
    let model = ModelConfig::new(27, 128).unwrap();
    for len in 1..8usize {
        let input: Vec<usize> = (0..len).map(|i| i % 27).collect();
        assert_eq!(model.forward_shape(&input), Ok(Shape { rows: len, cols: 27 }));
    }
}

#[test]
fn empty_input_is_rejected() {
    let model = ModelConfig::new(10, 32).unwrap();
    assert_eq!(model.forward_shape(&[]), Err(ModelError::EmptyInput));
    assert_eq!(model.check_input(&[]), Err(ModelError::EmptyInput));
}

#[test]
fn index_past_vocabulary_is_rejected() {
    let model = ModelConfig::new(10, 32).unwrap();
    assert_eq!(model.forward_shape(&[1, 10, 2]), Err(ModelError::IndexOutOfRange));
    assert_eq!(model.check_input(&[9, 0]), Ok(()));
}

#[test]
fn config_errors() {
    assert_eq!(ModelConfig::new(0, 32).err(), Some(ModelError::ZeroVocabulary));
    assert_eq!(ModelConfig::new(10, 0).err(), Some(ModelError::ZeroHidden));
    assert_eq!(ModelConfig::new(10, usize::MAX / 2).err(), Some(ModelError::HiddenTooWide));
}

#[test]
fn parameter_shapes() {
    let model = ModelConfig::new(10, 32).unwrap();
    assert_eq!(model.vocab_size(), 10);
    assert_eq!(model.hidden_dim(), 32);
    assert_eq!(model.ff_dim(), 128);
    assert_eq!(model.embedding_shape(), Shape { rows: 10, cols: 32 });
    assert_eq!(model.projection_shape(), Shape { rows: 32, cols: 32 });
    assert_eq!(
        model.feed_forward_shapes(),
        (Shape { rows: 32, cols: 128 }, Shape { rows: 128, cols: 32 })
    );
    assert_eq!(model.output_shape(), Shape { rows: 32, cols: 10 });
}

#[test]
fn shape_algebra() {
    let a = Shape { rows: 3, cols: 4 };
    let b = Shape { rows: 4, cols: 5 };
    assert_eq!(matmul_shape(a, b), Some(Shape { rows: 3, cols: 5 }));
    assert_eq!(matmul_shape(b, a), None);
    assert_eq!(transpose_shape(a), Shape { rows: 4, cols: 3 });
    assert_eq!(add_shape(a, a), Some(a));
    assert_eq!(add_shape(a, b), None);
}
