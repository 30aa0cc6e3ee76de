//! The typed result of proofreading and the ways a request can fail.
use vstd::prelude::*;
use crate::json::text_eq;

verus! {

/// The closed set of categories a correction can belong to.
#[derive(Clone, Copy, Debug, PartialEq, Eq, Structural)]
pub enum CorrectionType {
    Spelling,
    Punctuation,
    Capitalization,
    Preposition,
    MissingWords,
    Grammar,
}

/// The name under which a category appears in the model's output.
pub open spec fn category_name(t: CorrectionType) -> Seq<char> {
    match t {
        CorrectionType::Spelling => "spelling"@,
        CorrectionType::Punctuation => "punctuation"@,
        CorrectionType::Capitalization => "capitalization"@,
        CorrectionType::Preposition => "preposition"@,
        CorrectionType::MissingWords => "missing-words"@,
        CorrectionType::Grammar => "grammar"@,
    }
}

/// The category named `s`, if `s` names one.
pub open spec fn type_from_name(s: Seq<char>) -> Option<CorrectionType> {
    if s == "spelling"@ {
        Some(CorrectionType::Spelling)
    } else if s == "punctuation"@ {
        Some(CorrectionType::Punctuation)
    } else if s == "capitalization"@ {
        Some(CorrectionType::Capitalization)
    } else if s == "preposition"@ {
        Some(CorrectionType::Preposition)
    } else if s == "missing-words"@ {
        Some(CorrectionType::MissingWords)
    } else if s == "grammar"@ {
        Some(CorrectionType::Grammar)
    } else {
        None
    }
}

impl CorrectionType {
    /// Reads a category from its name; any other string is refused.
    pub fn from_name(s: &str) -> (r: Option<CorrectionType>)
        ensures
            r == type_from_name(s@),
    {
        if text_eq(s, "spelling") {
            Some(CorrectionType::Spelling)
        } else if text_eq(s, "punctuation") {
            Some(CorrectionType::Punctuation)
        } else if text_eq(s, "capitalization") {
            Some(CorrectionType::Capitalization)
        } else if text_eq(s, "preposition") {
            Some(CorrectionType::Preposition)
        } else if text_eq(s, "missing-words") {
            Some(CorrectionType::MissingWords)
        } else if text_eq(s, "grammar") {
            Some(CorrectionType::Grammar)
        } else {
            None
        }
    }

    /// The name of this category.
    pub fn name(&self) -> (r: &'static str)
        ensures
            r@ == category_name(*self),
    {
        match self {
            CorrectionType::Spelling => "spelling",
            CorrectionType::Punctuation => "punctuation",
            CorrectionType::Capitalization => "capitalization",
            CorrectionType::Preposition => "preposition",
            CorrectionType::MissingWords => "missing-words",
            CorrectionType::Grammar => "grammar",
        }
    }
}

/// One flagged mistake. `start_index` and `end_index` are character
/// (code point) offsets into the original input, both inclusive.
#[derive(Clone, Debug, PartialEq, Eq)]
pub struct Correction {
    pub start_index: usize,
    pub end_index: usize,
    pub correction: String,
    pub correction_type: CorrectionType,
    pub explanation: String,
}

/// The outcome of proofreading one text.
#[derive(Clone, Debug, PartialEq, Eq)]
pub struct Proofreading {
    pub corrected: String,
    pub corrections: Vec<Correction>,
}

/// The body of an incoming proofreading request.
#[derive(Clone, Debug, PartialEq, Eq)]
pub struct ProofreadParams {
    pub input: String,
}

pub struct CorrectionView {
    pub start_index: nat,
    pub end_index: nat,
    pub correction: Seq<char>,
    pub correction_type: CorrectionType,
    pub explanation: Seq<char>,
}

pub struct ProofreadingView {
    pub corrected: Seq<char>,
    pub corrections: Seq<CorrectionView>,
}

impl View for Correction {
    type V = CorrectionView;

    open spec fn view(&self) -> CorrectionView {
        CorrectionView {
            start_index: self.start_index as nat,
            end_index: self.end_index as nat,
            correction: self.correction@,
            correction_type: self.correction_type,
            explanation: self.explanation@,
        }
    }
}

impl View for Proofreading {
    type V = ProofreadingView;

    open spec fn view(&self) -> ProofreadingView {
        ProofreadingView {
            corrected: self.corrected@,
            corrections: self.corrections@.map_values(|c: Correction| c@),
        }
    }
}

/// The span of `c` lies inside a text of `len` characters and is not inverted.
pub open spec fn in_bounds(c: CorrectionView, len: nat) -> bool {
    c.start_index <= c.end_index && c.end_index < len
}

/// Why a proofreading request produced no result.
#[derive(Clone, Debug, PartialEq, Eq)]
pub enum ProofreadError {
    /// The model provider could not be reached, refused the call, or
    /// answered without a usable candidate text.
    Upstream(String),
    /// The model's text does not have the required shape; it is kept as it came.
    Malformed(String),
    /// The correction at `index` names a span outside the original input.
    Bounds { index: usize },
}

impl Correction {
    /// Whether this correction's span lies inside a text of `len` characters.
    pub fn fits(&self, len: usize) -> (r: bool)
        ensures
            r == in_bounds(self@, len as nat),
    {
        self.start_index <= self.end_index && self.end_index < len
    }
}

} // verus!
