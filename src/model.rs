use vstd::prelude::*;

verus! {

/// Expansion factor of the feed-forward block.
pub const FF_EXPANSION: usize = 4;

/// The shape of a matrix: `rows × cols`.
#[derive(Debug, Clone, Copy, PartialEq, Eq, Structural)]
pub struct Shape {
    pub rows: usize,
    pub cols: usize,
}

/// Shape of the product of an `a` matrix by a `b` matrix, or `None` where the
/// inner dimensions differ.
pub fn matmul_shape(a: Shape, b: Shape) -> (r: Option<Shape>)
    ensures
        r == (if a.cols == b.rows { Some(Shape { rows: a.rows, cols: b.cols }) } else { None::<Shape> }),
{
    if a.cols == b.rows {
        Some(Shape { rows: a.rows, cols: b.cols })
    } else {
        None
    }
}

/// Shape of the elementwise sum of two matrices, or `None` where they differ.
pub fn add_shape(a: Shape, b: Shape) -> (r: Option<Shape>)
    ensures
        r == (if a == b { Some(a) } else { None::<Shape> }),
{
    if a.rows == b.rows && a.cols == b.cols {
        Some(a)
    } else {
        None
    }
}

/// Shape of the transpose.
pub fn transpose_shape(a: Shape) -> (r: Shape)
    ensures
        r == (Shape { rows: a.cols, cols: a.rows }),
{
    Shape { rows: a.cols, cols: a.rows }
}

/// Why a model cannot be sized, or an input cannot be run through it.
#[derive(Debug, Clone, Copy, PartialEq, Eq, Structural)]
pub enum ModelError {
    /// The vocabulary has no symbol.
    ZeroVocabulary,
    /// The hidden width is zero.
    ZeroHidden,
    /// The feed-forward width `4 · hidden_dim` does not fit in a `usize`.
    HiddenTooWide,
    /// The input sequence is empty.
    EmptyInput,
    /// An input index is not below the vocabulary size.
    IndexOutOfRange,
}

/// The sizes of a single-layer self-attention model: a vocabulary of
/// `vocab_size` symbols embedded in `hidden_dim` dimensions.
#[derive(Debug)]
pub struct ModelConfig {
    vocab_size: usize,
    hidden_dim: usize,
}

impl ModelConfig {
    pub closed spec fn spec_vocab_size(&self) -> nat {
        self.vocab_size as nat
    }

    pub closed spec fn spec_hidden_dim(&self) -> nat {
        self.hidden_dim as nat
    }

    pub closed spec fn wf(&self) -> bool {
        &&& self.vocab_size > 0
        &&& self.hidden_dim > 0
        &&& FF_EXPANSION * self.hidden_dim <= usize::MAX
    }

    /// Sizes a model; both sizes must be positive and `4 · hidden_dim` must
    /// fit in a `usize`.
    pub fn new(vocab_size: usize, hidden_dim: usize) -> (r: Result<ModelConfig, ModelError>)
        ensures
            vocab_size == 0 ==> r == Err::<ModelConfig, ModelError>(ModelError::ZeroVocabulary),
            vocab_size > 0 && hidden_dim == 0 ==> r == Err::<ModelConfig, ModelError>(ModelError::ZeroHidden),
            vocab_size > 0 && hidden_dim > 0 && FF_EXPANSION * hidden_dim > usize::MAX
                ==> r == Err::<ModelConfig, ModelError>(ModelError::HiddenTooWide),
            vocab_size > 0 && hidden_dim > 0 && FF_EXPANSION * hidden_dim <= usize::MAX ==> r is Ok,
            r matches Ok(m) ==> m.wf() && m.spec_vocab_size() == vocab_size && m.spec_hidden_dim() == hidden_dim,
    {
        if vocab_size == 0 {
            Err(ModelError::ZeroVocabulary)
        } else if hidden_dim == 0 {
            Err(ModelError::ZeroHidden)
        } else if hidden_dim > usize::MAX / FF_EXPANSION {
            Err(ModelError::HiddenTooWide)
        } else {
            Ok(ModelConfig { vocab_size, hidden_dim })
        }
    }

    pub fn vocab_size(&self) -> (r: usize)
        ensures
            r == self.spec_vocab_size(),
    {
        self.vocab_size
    }

    pub fn hidden_dim(&self) -> (r: usize)
        ensures
            r == self.spec_hidden_dim(),
    {
        self.hidden_dim
    }

    /// Width of the feed-forward block's inner layer.
    pub fn ff_dim(&self) -> (r: usize)
        requires
            self.wf(),
        ensures
            r == FF_EXPANSION * self.spec_hidden_dim(),
    {
        FF_EXPANSION * self.hidden_dim
    }

    /// Shape of the embedding table.
    pub fn embedding_shape(&self) -> (r: Shape)
        ensures
            r == (Shape { rows: self.spec_vocab_size() as usize, cols: self.spec_hidden_dim() as usize }),
    {
        Shape { rows: self.vocab_size, cols: self.hidden_dim }
    }

    /// Shape of each of the query, key, value and attention output projections.
    pub fn projection_shape(&self) -> (r: Shape)
        ensures
            r == (Shape { rows: self.spec_hidden_dim() as usize, cols: self.spec_hidden_dim() as usize }),
    {
        Shape { rows: self.hidden_dim, cols: self.hidden_dim }
    }

    /// Shapes of the feed-forward block's two layers.
    pub fn feed_forward_shapes(&self) -> (r: (Shape, Shape))
        requires
            self.wf(),
        ensures
            r.0 == (Shape { rows: self.spec_hidden_dim() as usize, cols: (FF_EXPANSION * self.spec_hidden_dim()) as usize }),
            r.1 == (Shape { rows: (FF_EXPANSION * self.spec_hidden_dim()) as usize, cols: self.spec_hidden_dim() as usize }),
    {
        let f = self.ff_dim();
        (Shape { rows: self.hidden_dim, cols: f }, Shape { rows: f, cols: self.hidden_dim })
    }

    /// Shape of the output projection.
    pub fn output_shape(&self) -> (r: Shape)
        ensures
            r == (Shape { rows: self.spec_hidden_dim() as usize, cols: self.spec_vocab_size() as usize }),
    {
        Shape { rows: self.hidden_dim, cols: self.vocab_size }
    }

    /// Checks that `input` can be run through the model: it is not empty and
    /// each of its indices names a symbol.
    pub fn check_input(&self, input: &[usize]) -> (r: Result<(), ModelError>)
        ensures
            input@.len() == 0 ==> r == Err::<(), ModelError>(ModelError::EmptyInput),
            input@.len() > 0 && !crate::data::indices_below(input@, self.spec_vocab_size())
                ==> r == Err::<(), ModelError>(ModelError::IndexOutOfRange),
            input@.len() > 0 && crate::data::indices_below(input@, self.spec_vocab_size()) ==> r is Ok,
    {
        if input.len() == 0 {
            return Err(ModelError::EmptyInput);
        }
        let mut k: usize = 0;
        while k < input.len()
            invariant
                k <= input@.len(),
                forall|i: int| 0 <= i < k ==> input@[i] < self.vocab_size,
            decreases input@.len() - k,
        {
            if input[k] >= self.vocab_size {
                return Err(ModelError::IndexOutOfRange);
            }
            k = k + 1;
        }
        Ok(())
    }

    /// Traces the shape of every stage of the forward pass on `input`:
    /// embedding, single-head self-attention with its output projection,
    /// residual and normalization, the feed-forward block, a second residual
    /// and normalization, and the output projection. The logits have one row
    /// per input position and one column per symbol.
    pub fn forward_shape(&self, input: &[usize]) -> (r: Result<Shape, ModelError>)
        requires
            self.wf(),
        ensures
            input@.len() == 0 ==> r == Err::<Shape, ModelError>(ModelError::EmptyInput),
            input@.len() > 0 && !crate::data::indices_below(input@, self.spec_vocab_size())
                ==> r == Err::<Shape, ModelError>(ModelError::IndexOutOfRange),
            input@.len() > 0 && crate::data::indices_below(input@, self.spec_vocab_size())
                ==> r == Ok::<Shape, ModelError>(Shape { rows: input@.len() as usize, cols: self.spec_vocab_size() as usize }),
    {
        match self.check_input(input) {
            Err(e) => {
                return Err(e);
            },
            Ok(()) => {},
        }
        let len = input.len();
        // One embedding row per position.
        let embedded = Shape { rows: len, cols: self.embedding_shape().cols };
        let proj = self.projection_shape();
        let q = matmul_shape(embedded, proj).unwrap();
        let k = matmul_shape(embedded, proj).unwrap();
        let v = matmul_shape(embedded, proj).unwrap();
        // Attention weights: one row of `len` weights per position.
        let scores = matmul_shape(q, transpose_shape(k)).unwrap();
        let attended = matmul_shape(scores, v).unwrap();
        let attention_out = matmul_shape(attended, proj).unwrap();
        let h1 = add_shape(embedded, attention_out).unwrap();
        let (ff1, ff2) = self.feed_forward_shapes();
        let inner = matmul_shape(h1, ff1).unwrap();
        let ff = matmul_shape(inner, ff2).unwrap();
        let h2 = add_shape(h1, ff).unwrap();
        let logits = matmul_shape(h2, self.output_shape()).unwrap();
        Ok(logits)
    }
}

} // verus!
