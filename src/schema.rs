//! The JSON schema that pins down the shape of the model's answer.
use vstd::prelude::*;
use vstd::string::*;
use crate::json::{JsonValue, get, has_str, member, lemma_member_at};
use crate::model::{CorrectionType, category_name};

verus! {

/// `v` has a member `key` that is an object whose `type` is `ty`.
pub open spec fn typed(v: JsonValue, key: Seq<char>, ty: Seq<char>) -> bool {
    get(v, key) is Some && has_str(get(v, key)->0, "type"@, ty)
}

/// `v` is an array of exactly the strings `names`, in order.
pub open spec fn lists(v: Option<JsonValue>, names: Seq<Seq<char>>) -> bool {
    v is Some && v->0 is Array && v->0->Array_0@.len() == names.len() && forall|i: int|
        0 <= i < names.len() ==> (#[trigger] v->0->Array_0@[i] matches JsonValue::Str(s) && s@
            == names[i])
}

/// The category names, in the order the schema offers them.
pub open spec fn category_names() -> Seq<Seq<char>> {
    seq![
        category_name(CorrectionType::Spelling),
        category_name(CorrectionType::Punctuation),
        category_name(CorrectionType::Capitalization),
        category_name(CorrectionType::Preposition),
        category_name(CorrectionType::MissingWords),
        category_name(CorrectionType::Grammar),
    ]
}

/// The members every correction must have.
pub open spec fn required_members() -> Seq<Seq<char>> {
    seq!["startIndex"@, "endIndex"@, "correction"@, "type"@, "explanation"@]
}

/// `schema` describes the answer that the decoder reads: an object with a
/// string `corrected` and an array `corrections` of objects, each with
/// integers `startIndex` and `endIndex`, strings `correction` and
/// `explanation`, and a string `type` limited to the category names; all
/// five of them required.
pub open spec fn describes_answer(schema: JsonValue) -> bool {
    let props = get(schema, "properties"@)->0;
    let list = get(props, "corrections"@)->0;
    let item = get(list, "items"@)->0;
    let fields = get(item, "properties"@)->0;
    &&& has_str(schema, "type"@, "object"@)
    &&& get(schema, "properties"@) is Some
    &&& typed(props, "corrected"@, "string"@)
    &&& has_str(list, "type"@, "array"@)
    &&& get(list, "items"@) is Some
    &&& has_str(item, "type"@, "object"@)
    &&& get(item, "properties"@) is Some
    &&& typed(fields, "startIndex"@, "integer"@)
    &&& typed(fields, "endIndex"@, "integer"@)
    &&& typed(fields, "correction"@, "string"@)
    &&& typed(fields, "type"@, "string"@)
    &&& lists(get(get(fields, "type"@)->0, "enum"@), category_names())
    &&& typed(fields, "explanation"@, "string"@)
    &&& lists(get(item, "required"@), required_members())
}

fn text(s: &str) -> (r: JsonValue)
    ensures
        r matches JsonValue::Str(t) && t@ == s@,
{
    JsonValue::Str(String::from_str(s))
}

fn entry(key: &str, value: JsonValue) -> (r: (String, JsonValue))
    ensures
        r.0@ == key@,
        r.1 == value,
{
    (String::from_str(key), value)
}

/// `{"type": ty}`
fn of_type(ty: &str) -> (r: JsonValue)
    ensures
        has_str(r, "type"@, ty@),
{
    let r = JsonValue::Object(vec![entry("type", text(ty))]);
    assert(get(r, "type"@) == Some(r->Object_0@[0].1));
    r
}

/// The value of the member at position `k` of the object `v`, when no
/// earlier member has its name.
proof fn lemma_get_at(v: JsonValue, k: int, key: Seq<char>)
    requires
        v is Object,
        0 <= k < v->Object_0@.len(),
        v->Object_0@[k].0@ == key,
        forall|j: int| 0 <= j < k ==> (#[trigger] v->Object_0@[j]).0@ != key,
    ensures
        get(v, key) == Some(v->Object_0@[k].1),
{
    lemma_member_at(v->Object_0@, k, key);
}

/// The schema of the answer, as the model provider's structured output mode takes it.
pub fn response_schema() -> (r: JsonValue)
    ensures
        describes_answer(r),
{
    proof {
        reveal_strlit("type");
        reveal_strlit("enum");
        reveal_strlit("properties");
        reveal_strlit("items");
        reveal_strlit("required");
        reveal_strlit("corrected");
        reveal_strlit("corrections");
        reveal_strlit("startIndex");
        reveal_strlit("endIndex");
        reveal_strlit("correction");
        reveal_strlit("explanation");
        assert("type"@[0] != "enum"@[0]);
        assert("startIndex"@[0] != "correction"@[0]);
        assert("explanation"@.len() == 11 && "startIndex"@.len() == 10 && "endIndex"@.len() == 8);
        assert("correction"@.len() == 10 && "type"@.len() == 4 && "required"@.len() == 8);
        assert("properties"@.len() == 10 && "corrected"@.len() == 9 && "corrections"@.len() == 11);
    }
    let names = vec![
        text(CorrectionType::Spelling.name()),
        text(CorrectionType::Punctuation.name()),
        text(CorrectionType::Capitalization.name()),
        text(CorrectionType::Preposition.name()),
        text(CorrectionType::MissingWords.name()),
        text(CorrectionType::Grammar.name()),
    ];
    let category = JsonValue::Object(vec![entry("type", text("string")), entry("enum", JsonValue::Array(names))]);
    proof {
        lemma_get_at(category, 0, "type"@);
        lemma_get_at(category, 1, "enum"@);
        assert(lists(get(category, "enum"@), category_names()));
    }
    let required = vec![
        text("startIndex"),
        text("endIndex"),
        text("correction"),
        text("type"),
        text("explanation"),
    ];
    let fields = JsonValue::Object(
        vec![
            entry("startIndex", of_type("integer")),
            entry("endIndex", of_type("integer")),
            entry("correction", of_type("string")),
            entry("type", category),
            entry("explanation", of_type("string")),
        ],
    );
    proof {
        lemma_get_at(fields, 0, "startIndex"@);
        lemma_get_at(fields, 1, "endIndex"@);
        lemma_get_at(fields, 2, "correction"@);
        lemma_get_at(fields, 3, "type"@);
        lemma_get_at(fields, 4, "explanation"@);
    }
    let item = JsonValue::Object(
        vec![
            entry("type", text("object")),
            entry("properties", fields),
            entry("required", JsonValue::Array(required)),
        ],
    );
    proof {
        lemma_get_at(item, 0, "type"@);
        lemma_get_at(item, 1, "properties"@);
        lemma_get_at(item, 2, "required"@);
        assert(lists(get(item, "required"@), required_members()));
    }
    let list = JsonValue::Object(vec![entry("type", text("array")), entry("items", item)]);
    proof {
        lemma_get_at(list, 0, "type"@);
        lemma_get_at(list, 1, "items"@);
    }
    let props = JsonValue::Object(
        vec![entry("corrected", of_type("string")), entry("corrections", list)],
    );
    proof {
        lemma_get_at(props, 0, "corrected"@);
        lemma_get_at(props, 1, "corrections"@);
    }
    let r = JsonValue::Object(vec![entry("type", text("object")), entry("properties", props)]);
    proof {
        lemma_get_at(r, 0, "type"@);
        lemma_get_at(r, 1, "properties"@);
    }
    r
}

} // verus!
