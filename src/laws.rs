//! Properties that hold of every answer the checks accept or refuse.
use vstd::prelude::*;
use crate::json::{JsonValue, get};
use crate::model::{
    CorrectionType, CorrectionView, Proofreading, ProofreadingView, ProofreadError, category_name, type_from_name,
    in_bounds,
};
use crate::decode::{
    Failure, decoded, decoded_correction, decoded_corrections, expected_outcome, first_outside,
    lemma_prefix_fails, outcome_view,
};

verus! {

/// `first_outside` finds nothing exactly when every span fits, and otherwise
/// finds the earliest one that does not.
pub proof fn lemma_first_outside(cs: Seq<CorrectionView>, len: nat)
    ensures
        first_outside(cs, len) is None <==> forall|j: int| 0 <= j < cs.len() ==> #[trigger] in_bounds(cs[j], len),
        first_outside(cs, len) matches Some(i) ==> {
            &&& i < cs.len()
            &&& !in_bounds(cs[i as int], len)
            &&& forall|j: int| 0 <= j < i ==> #[trigger] in_bounds(cs[j], len)
        },
    decreases cs.len(),
{
    if cs.len() > 0 {
        let init = cs.drop_last();
        lemma_first_outside(init, len);
        assert forall|j: int| 0 <= j < init.len() implies cs[j] == #[trigger] init[j] by {}
        match first_outside(init, len) {
            Some(i) => {
                assert(cs[i as int] == init[i as int]);
                assert forall|j: int| 0 <= j < i implies #[trigger] in_bounds(cs[j], len) by {
                    assert(cs[j] == init[j]);
                    assert(in_bounds(init[j], len));
                }
                assert(!in_bounds(cs[i as int], len));
            },
            None => {
                assert forall|j: int| 0 <= j < init.len() implies #[trigger] in_bounds(cs[j], len) by {
                    assert(cs[j] == init[j]);
                    assert(in_bounds(init[j], len));
                }
                if in_bounds(cs.last(), len) {
                    assert forall|j: int| 0 <= j < cs.len() implies #[trigger] in_bounds(cs[j], len) by {
                        if j < init.len() {
                            assert(cs[j] == init[j]);
                        }
                    }
                }
            },
        }
    }
}

/// Every correction of an accepted answer lies inside the original text.
pub proof fn lemma_accepted_spans_fit(input: Seq<char>, raw: Seq<char>, doc: Option<JsonValue>)
    ensures
        expected_outcome(input, raw, doc) matches Ok(p) ==> forall|j: int|
            0 <= j < p.corrections.len() ==> #[trigger] in_bounds(p.corrections[j], input.len()),
{
    if let Some(v) = doc {
        if let Some(p) = decoded(v) {
            lemma_first_outside(p.corrections, input.len());
        }
    }
}

/// An answer of the right shape with a correction whose span does not fit
/// the original text is refused with a bounds error, which names the first
/// such correction.
pub proof fn lemma_outside_span_refused(input: Seq<char>, raw: Seq<char>, v: JsonValue, k: int)
    requires
        decoded(v) is Some,
        0 <= k < decoded(v)->0.corrections.len(),
        !in_bounds(decoded(v)->0.corrections[k], input.len()),
    ensures
        expected_outcome(input, raw, Some(v)) is Err,
        expected_outcome(input, raw, Some(v))->Err_0 is Bounds,
        ({
            let cs = decoded(v)->0.corrections;
            let i = expected_outcome(input, raw, Some(v))->Err_0->Bounds_0;
            &&& i <= k
            &&& !in_bounds(cs[i as int], input.len())
            &&& forall|j: int| 0 <= j < i ==> #[trigger] in_bounds(cs[j], input.len())
        }),
{
    lemma_first_outside(decoded(v)->0.corrections, input.len());
}

/// A category is accepted exactly under its own name; no two categories share one.
pub proof fn lemma_category_names(s: Seq<char>, t: CorrectionType)
    ensures
        type_from_name(s) == Some(t) <==> s == category_name(t),
{
    reveal_strlit("spelling");
    reveal_strlit("punctuation");
    reveal_strlit("capitalization");
    reveal_strlit("preposition");
    reveal_strlit("missing-words");
    reveal_strlit("grammar");
    assert("punctuation"@[1] != "preposition"@[1]);
    assert("spelling"@.len() == 8);
    assert("punctuation"@.len() == 11);
    assert("capitalization"@.len() == 14);
    assert("preposition"@.len() == 11);
    assert("missing-words"@.len() == 13);
    assert("grammar"@.len() == 7);
}

/// An answer with a correction whose `type` is a string naming none of the
/// categories is refused as malformed.
pub proof fn lemma_unknown_category_refused(
    input: Seq<char>,
    raw: Seq<char>,
    v: JsonValue,
    items: Vec<JsonValue>,
    k: int,
    name: String,
)
    requires
        get(v, "corrections"@) == Some(JsonValue::Array(items)),
        0 <= k < items@.len(),
        get(items@[k], "type"@) == Some(JsonValue::Str(name)),
        forall|t: CorrectionType| name@ != #[trigger] category_name(t),
    ensures
        expected_outcome(input, raw, Some(v)) == Err::<ProofreadingView, Failure>(
            Failure::Malformed(raw),
        ),
{
    {
        let t = type_from_name(name@);
        if t is Some {
            lemma_category_names(name@, t->0);
            assert(name@ == category_name(t->0));
        }
        assert(decoded_correction(items@[k]) is None);
        let sub = items@.subrange(0, k + 1);
        assert(sub.drop_last() =~= items@.subrange(0, k));
        assert(sub.last() == items@[k]);
        lemma_prefix_fails(items@, k + 1, items@.len() as int);
        assert(items@.subrange(0, items@.len() as int) =~= items@);
        assert(decoded_corrections(items@) is None);
    }
}

/// Decoding is deterministic: two decodings of one document give equal
/// proofreadings, and two judgements of one answer for one input give equal
/// outcomes.
pub proof fn lemma_judgement_deterministic(
    input: Seq<char>,
    raw: Seq<char>,
    doc: Option<JsonValue>,
    p1: Proofreading,
    p2: Proofreading,
    r1: Result<Proofreading, ProofreadError>,
    r2: Result<Proofreading, ProofreadError>,
)
    requires
        doc is Some ==> decoded(doc->0) == Some(p1@) && decoded(doc->0) == Some(p2@),
        outcome_view(r1) == expected_outcome(input, raw, doc),
        outcome_view(r2) == expected_outcome(input, raw, doc),
    ensures
        doc is Some ==> p1@ == p2@,
        outcome_view(r1) == outcome_view(r2),
{
}

} // verus!
