use vstd::prelude::*;

verus! {

/// No symbol occurs twice in `s`.
pub open spec fn distinct(s: Seq<char>) -> bool {
    forall|i: int, j: int| 0 <= i < j < s.len() ==> s[i] != s[j]
}

/// Position of the first occurrence of `c` in `symbols`, if any.
pub fn position_of(symbols: &[char], c: char) -> (r: Option<usize>)
    ensures
        r is None <==> !symbols@.contains(c),
        r matches Some(i) ==> i < symbols@.len() && symbols@[i as int] == c
            && forall|j: int| 0 <= j < i ==> symbols@[j] != c,
{
    let mut k: usize = 0;
    while k < symbols.len()
        invariant
            k <= symbols@.len(),
            forall|j: int| 0 <= j < k ==> symbols@[j] != c,
        decreases symbols@.len() - k,
    {
        if symbols[k] == c {
            return Some(k);
        }
        k = k + 1;
    }
    None
}

/// Why a list of symbols is no vocabulary.
#[derive(Debug, Clone, Copy, PartialEq, Eq, Structural)]
pub enum VocabularyError {
    Empty,
    Duplicate,
}

/// An ordered set of distinct symbols; a symbol's index is its position.
#[derive(Debug)]
pub struct Vocabulary {
    symbols: Vec<char>,
}

impl View for Vocabulary {
    type V = Seq<char>;

    closed spec fn view(&self) -> Seq<char> {
        self.symbols@
    }
}

impl Vocabulary {
    pub open spec fn wf(&self) -> bool {
        self@.len() > 0 && distinct(self@)
    }

    /// Builds a vocabulary, refusing an empty list or one with a repeated symbol.
    pub fn from_symbols(symbols: Vec<char>) -> (r: Result<Vocabulary, VocabularyError>)
        ensures
            symbols@.len() == 0 ==> r == Err::<Vocabulary, VocabularyError>(VocabularyError::Empty),
            symbols@.len() > 0 && !distinct(symbols@) ==> r == Err::<Vocabulary, VocabularyError>(VocabularyError::Duplicate),
            symbols@.len() > 0 && distinct(symbols@) ==> r is Ok,
            r matches Ok(v) ==> v@ == symbols@ && v.wf(),
    {
        if symbols.len() == 0 {
            return Err(VocabularyError::Empty);
        }
        let mut k: usize = 0;
        while k < symbols.len()
            invariant
                k <= symbols@.len(),
                forall|i: int, j: int| 0 <= i < j < symbols@.len() && i < k ==> symbols@[i] != symbols@[j],
            decreases symbols@.len() - k,
        {
            let mut j: usize = k + 1;
            while j < symbols.len()
                invariant
                    k < j <= symbols@.len(),
                    forall|m: int| k < m < j ==> symbols@[k as int] != symbols@[m],
                decreases symbols@.len() - j,
            {
                if symbols[j] == symbols[k] {
                    return Err(VocabularyError::Duplicate);
                }
                j = j + 1;
            }
            k = k + 1;
        }
        Ok(Vocabulary { symbols })
    }

    /// Number of symbols.
    pub fn size(&self) -> (r: usize)
        ensures
            r == self@.len(),
    {
        self.symbols.len()
    }

    /// The symbols in index order.
    pub fn symbols(&self) -> (r: &[char])
        ensures
            r@ == self@,
    {
        self.symbols.as_slice()
    }

    /// Index of `c`, or `None` where `c` is not a symbol of the vocabulary.
    pub fn index_of(&self, c: char) -> (r: Option<usize>)
        requires
            self.wf(),
        ensures
            r is None <==> !self@.contains(c),
            r matches Some(i) ==> i < self@.len() && self@[i as int] == c,
    {
        position_of(self.symbols.as_slice(), c)
    }

    /// Symbol at index `i`, or `None` where `i` is out of range.
    pub fn symbol_at(&self, i: usize) -> (r: Option<char>)
        ensures
            i < self@.len() ==> r == Some(self@[i as int]),
            i >= self@.len() ==> r is None,
    {
        if i < self.symbols.len() {
            Some(self.symbols[i])
        } else {
            None
        }
    }
}

} // verus!
