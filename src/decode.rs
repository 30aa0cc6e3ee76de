//! Turning the model's JSON answer into a checked `Proofreading`.
use vstd::prelude::*;
use vstd::string::*;
use crate::json::{JsonValue, get, owned, find_member};
use crate::model::{
    CorrectionType, Correction, Proofreading, ProofreadError, CorrectionView, ProofreadingView,
    type_from_name, in_bounds,
};

verus! {

/// A non-negative integer that fits a `usize`.
pub open spec fn decoded_index(v: Option<JsonValue>) -> Option<nat> {
    match v {
        Some(JsonValue::Integer(n)) => if 0 <= n <= usize::MAX {
            Some(n as nat)
        } else {
            None
        },
        _ => None,
    }
}

pub open spec fn decoded_text(v: Option<JsonValue>) -> Option<Seq<char>> {
    match v {
        Some(JsonValue::Str(s)) => Some(s@),
        _ => None,
    }
}

pub open spec fn decoded_category(v: Option<JsonValue>) -> Option<CorrectionType> {
    match v {
        Some(JsonValue::Str(s)) => type_from_name(s@),
        _ => None,
    }
}

/// The correction that `v` describes: an object whose five required members
/// all have the right type. Members it does not know are ignored.
pub open spec fn decoded_correction(v: JsonValue) -> Option<CorrectionView> {
    let start = decoded_index(get(v, "startIndex"@));
    let end = decoded_index(get(v, "endIndex"@));
    let correction = decoded_text(get(v, "correction"@));
    let category = decoded_category(get(v, "type"@));
    let explanation = decoded_text(get(v, "explanation"@));
    if start is Some && end is Some && correction is Some && category is Some
        && explanation is Some {
        Some(
            CorrectionView {
                start_index: start->0,
                end_index: end->0,
                correction: correction->0,
                correction_type: category->0,
                explanation: explanation->0,
            },
        )
    } else {
        None
    }
}

/// The corrections that `items` describe, in order, if every one of them is well formed.
pub open spec fn decoded_corrections(items: Seq<JsonValue>) -> Option<Seq<CorrectionView>>
    decreases items.len(),
{
    if items.len() == 0 {
        Some(Seq::empty())
    } else {
        match (decoded_corrections(items.drop_last()), decoded_correction(items.last())) {
            (Some(cs), Some(c)) => Some(cs.push(c)),
            _ => None,
        }
    }
}

/// The proofreading that the document `v` describes, if it has the required shape.
pub open spec fn decoded(v: JsonValue) -> Option<ProofreadingView> {
    let corrected = decoded_text(get(v, "corrected"@));
    let corrections = match get(v, "corrections"@) {
        Some(JsonValue::Array(items)) => decoded_corrections(items@),
        _ => None,
    };
    if corrected is Some && corrections is Some {
        Some(ProofreadingView { corrected: corrected->0, corrections: corrections->0 })
    } else {
        None
    }
}

/// The position of the first correction whose span does not fit a text of `len` characters.
pub open spec fn first_outside(cs: Seq<CorrectionView>, len: nat) -> Option<nat>
    decreases cs.len(),
{
    if cs.len() == 0 {
        None
    } else {
        match first_outside(cs.drop_last(), len) {
            Some(i) => Some(i),
            None => if in_bounds(cs.last(), len) {
                None
            } else {
                Some((cs.len() - 1) as nat)
            },
        }
    }
}

/// A failure, as a value of specifications.
pub enum Failure {
    Upstream(Seq<char>),
    Malformed(Seq<char>),
    Bounds(nat),
}

impl View for ProofreadError {
    type V = Failure;

    open spec fn view(&self) -> Failure {
        match self {
            ProofreadError::Upstream(m) => Failure::Upstream(m@),
            ProofreadError::Malformed(t) => Failure::Malformed(t@),
            ProofreadError::Bounds { index } => Failure::Bounds(*index as nat),
        }
    }
}

pub open spec fn outcome_view(r: Result<Proofreading, ProofreadError>) -> Result<ProofreadingView, Failure> {
    match r {
        Ok(p) => Ok(p@),
        Err(e) => Err(e@),
    }
}

/// What the model's answer `raw`, parsed as `doc` (`None`: not JSON at all),
/// comes to for the original text `input`.
pub open spec fn expected_outcome(input: Seq<char>, raw: Seq<char>, doc: Option<JsonValue>) -> Result<ProofreadingView, Failure> {
    match doc {
        None => Err(Failure::Malformed(raw)),
        Some(v) => match decoded(v) {
            None => Err(Failure::Malformed(raw)),
            Some(p) => match first_outside(p.corrections, input.len()) {
                Some(i) => Err(Failure::Bounds(i)),
                None => Ok(p),
            },
        },
    }
}

fn decode_index(v: Option<&JsonValue>) -> (r: Option<usize>)
    ensures
        match r {
            Some(n) => decoded_index(owned(v)) == Some(n as nat),
            None => decoded_index(owned(v)) is None,
        },
{
    match v {
        Some(JsonValue::Integer(n)) => {
            if 0 <= *n && *n <= usize::MAX as i128 {
                Some(*n as usize)
            } else {
                None
            }
        },
        _ => None,
    }
}

fn decode_text(v: Option<&JsonValue>) -> (r: Option<String>)
    ensures
        match r {
            Some(s) => decoded_text(owned(v)) == Some(s@),
            None => decoded_text(owned(v)) is None,
        },
{
    match v {
        Some(JsonValue::Str(s)) => Some(s.clone()),
        _ => None,
    }
}

fn decode_category(v: Option<&JsonValue>) -> (r: Option<CorrectionType>)
    ensures
        r == decoded_category(owned(v)),
{
    match v {
        Some(JsonValue::Str(s)) => CorrectionType::from_name(s.as_str()),
        _ => None,
    }
}

fn member_of<'a>(v: &'a JsonValue, key: &str) -> (r: Option<&'a JsonValue>)
    ensures
        owned(r) == get(*v, key@),
{
    match v {
        JsonValue::Object(fields) => find_member(fields, key),
        _ => None,
    }
}

/// Once a prefix of the items fails to decode, every longer prefix fails too.
pub proof fn lemma_prefix_fails(items: Seq<JsonValue>, k: int, m: int)
    requires
        0 <= k <= m <= items.len(),
        decoded_corrections(items.subrange(0, k)) is None,
    ensures
        decoded_corrections(items.subrange(0, m)) is None,
    decreases m - k,
{
    if k < m {
        assert(items.subrange(0, k + 1).drop_last() =~= items.subrange(0, k));
        lemma_prefix_fails(items, k + 1, m);
    }
}

/// Reads one correction from its JSON object.
pub fn decode_correction(v: &JsonValue) -> (r: Option<Correction>)
    ensures
        match r {
            Some(c) => decoded_correction(*v) == Some(c@),
            None => decoded_correction(*v) is None,
        },
{
    let start = decode_index(member_of(v, "startIndex"));
    let end = decode_index(member_of(v, "endIndex"));
    let correction = decode_text(member_of(v, "correction"));
    let category = decode_category(member_of(v, "type"));
    let explanation = decode_text(member_of(v, "explanation"));
    match (start, end, correction, category, explanation) {
        (Some(s), Some(e), Some(c), Some(t), Some(x)) => Some(
            Correction {
                start_index: s,
                end_index: e,
                correction: c,
                correction_type: t,
                explanation: x,
            },
        ),
        _ => None,
    }
}

/// Reads a whole answer document; `None` when it lacks a required member,
/// a member has the wrong type, or a category is not one of the known names.
pub fn decode(doc: &JsonValue) -> (r: Option<Proofreading>)
    ensures
        match r {
            Some(p) => decoded(*doc) == Some(p@),
            None => decoded(*doc) is None,
        },
{
    let corrected = match decode_text(member_of(doc, "corrected")) {
        Some(s) => s,
        None => return None,
    };
    let found = member_of(doc, "corrections");
    let items = match found {
        Some(JsonValue::Array(items)) => items,
        _ => return None,
    };
    assert(get(*doc, "corrections"@) == Some(JsonValue::Array(*items)));
    let mut corrections: Vec<Correction> = Vec::new();
    let mut i: usize = 0;
    while i < items.len()
        invariant
            i <= items@.len(),
            get(*doc, "corrections"@) == Some(JsonValue::Array(*items)),
            decoded_corrections(items@.subrange(0, i as int))
                == Some(corrections@.map_values(|c: Correction| c@)),
        decreases items.len() - i,
    {
        assert(items@.subrange(0, i + 1).drop_last() =~= items@.subrange(0, i as int));
        let c = match decode_correction(&items[i]) {
            Some(c) => c,
            None => {
                proof {
                    assert(items@.subrange(0, i + 1).last() == items@[i as int]);
                    lemma_prefix_fails(items@, i + 1, items@.len() as int);
                    assert(items@.subrange(0, items@.len() as int) =~= items@);
                }
                return None;
            },
        };
        let ghost before = corrections@;
        corrections.push(c);
        assert(corrections@.map_values(|c: Correction| c@)
            =~= before.map_values(|c: Correction| c@).push(c@));
        i = i + 1;
    }
    assert(items@.subrange(0, items@.len() as int) =~= items@);
    Some(Proofreading { corrected, corrections })
}

/// The position of the first correction whose span does not fit a text of
/// `len` characters, if there is one.
pub fn find_outside(corrections: &Vec<Correction>, len: usize) -> (r: Option<usize>)
    ensures
        owned_index(r) == first_outside(corrections@.map_values(|c: Correction| c@), len as nat),
{
    let ghost views = corrections@.map_values(|c: Correction| c@);
    let mut i: usize = 0;
    while i < corrections.len()
        invariant
            i <= corrections@.len(),
            views == corrections@.map_values(|c: Correction| c@),
            first_outside(views.subrange(0, i as int), len as nat) is None,
        decreases corrections.len() - i,
    {
        assert(views.subrange(0, i + 1).drop_last() =~= views.subrange(0, i as int));
        if !corrections[i].fits(len) {
            proof { lemma_first_outside_stays(views, i + 1, views.len() as int, len as nat); }
            assert(views.subrange(0, views.len() as int) =~= views);
            return Some(i);
        }
        i = i + 1;
    }
    assert(views.subrange(0, views.len() as int) =~= views);
    None
}

pub open spec fn owned_index(r: Option<usize>) -> Option<nat> {
    match r {
        Some(i) => Some(i as nat),
        None => None,
    }
}

/// Once a prefix has a first correction out of bounds, longer prefixes keep it.
pub proof fn lemma_first_outside_stays(cs: Seq<CorrectionView>, k: int, m: int, len: nat)
    requires
        0 <= k <= m <= cs.len(),
        first_outside(cs.subrange(0, k), len) is Some,
    ensures
        first_outside(cs.subrange(0, m), len) == first_outside(cs.subrange(0, k), len),
    decreases m - k,
{
    if k < m {
        assert(cs.subrange(0, k + 1).drop_last() =~= cs.subrange(0, k));
        lemma_first_outside_stays(cs, k + 1, m, len);
    }
}

/// Judges the model's answer `raw` for the original text `input`. `doc` is
/// `raw` parsed as JSON, or `None` where `raw` is not JSON. The result is the
/// decoded proofreading when it has the required shape and every span lies
/// inside `input`; a malformed-output error holding `raw` when the shape is
/// wrong; a bounds error naming the first correction whose span does not fit.
pub fn interpret_output(input: &str, raw: &str, doc: Option<JsonValue>) -> (r: Result<Proofreading, ProofreadError>)
    ensures
        outcome_view(r) == expected_outcome(input@, raw@, doc),
{
    let v = match doc {
        Some(v) => v,
        None => return Err(ProofreadError::Malformed(String::from_str(raw))),
    };
    let p = match decode(&v) {
        Some(p) => p,
        None => return Err(ProofreadError::Malformed(String::from_str(raw))),
    };
    match find_outside(&p.corrections, input.unicode_len()) {
        Some(index) => Err(ProofreadError::Bounds { index }),
        None => Ok(p),
    }
}

} // verus!
