//! A character-level sequence model's verified core: the vocabulary, the
//! synthetic data generator, the model's shape algebra, the training schedule
//! and the accuracy count of the evaluator.

pub mod vocab;
pub mod data;
pub mod model;
pub mod evaluate;
pub mod train;
