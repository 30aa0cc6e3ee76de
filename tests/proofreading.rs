use proofreader::json::{find_member, text_eq};
use proofreader::{
    candidate_text, compose_request, decode, find_outside, interpret_output, response_schema,
    Correction, CorrectionType, JsonValue, ProofreadError, Proofreading, MODEL,
    RESPONSE_MIME_TYPE, SYSTEM_PROMPT,
};

fn tree(v: &serde_json::Value) -> JsonValue {
    match v {
        serde_json::Value::Null => JsonValue::Null,
        serde_json::Value::Bool(b) => JsonValue::Bool(*b),
        serde_json::Value::Number(n) => match (n.as_u64(), n.as_i64()) {
            (Some(u), _) => JsonValue::Integer(u as i128),
            (None, Some(i)) => JsonValue::Integer(i as i128),
            _ => JsonValue::Fraction,
        },
        serde_json::Value::String(s) => JsonValue::Str(s.clone()),
        serde_json::Value::Array(a) => JsonValue::Array(a.iter().map(tree).collect()),
        serde_json::Value::Object(m) => {
            JsonValue::Object(m.iter().map(|(k, x)| (k.clone(), tree(x))).collect())
        }
    }
}

fn parse(raw: &str) -> Option<JsonValue> {
    serde_json::from_str::<serde_json::Value>(raw).ok().map(|v| tree(&v))
}

fn judge(input: &str, raw: &str) -> Result<Proofreading, ProofreadError> {
    interpret_output(input, raw, parse(raw))
}

fn one_correction(start: &str, end: &str, kind: &str) -> String {
    format!(
        "{{\"corrected\":\"x\",\"corrections\":[{{\"startIndex\":{},\"endIndex\":{},\"correction\":\"c\",\"type\":{},\"explanation\":\"e\"}}]}}",
        start, end, kind
    )
}

const SCENARIO_A: &str = "{\"corrected\":\"They're going to the store.\",\"corrections\":[{\"startIndex\":0,\"endIndex\":4,\"correction\":\"They're\",\"type\":\"spelling\",\"explanation\":\"...\"},{\"startIndex\":14,\"endIndex\":16,\"correction\":\"to\",\"type\":\"preposition\",\"explanation\":\"...\"}]}";

#[test]
fn scenario_a_two_corrections_within_bounds() {
    let input = "Their going too the store.";
    let p = judge(input, SCENARIO_A).unwrap();
    assert_eq!(p.corrected, "They're going to the store.");
    assert_eq!(p.corrections.len(), 2);
    assert_eq!(
        p.corrections[0],
        Correction {
            start_index: 0,
            end_index: 4,
            correction: "They're".to_string(),
            correction_type: CorrectionType::Spelling,
            explanation: "...".to_string(),
        }
    );
    assert_eq!(p.corrections[1].start_index, 14);
    assert_eq!(p.corrections[1].end_index, 16);
    assert_eq!(p.corrections[1].correction, "to");
    assert_eq!(p.corrections[1].correction_type, CorrectionType::Preposition);
    let len = input.chars().count();
    assert!(p.corrections.iter().all(|c| c.fits(len)));
}

#[test]
fn scenario_b_missing_corrections_is_malformed() {
    let raw = "{\"corrected\":\"ok\"}";
    assert_eq!(judge("ok", raw), Err(ProofreadError::Malformed(raw.to_string())));
}

#[test]
fn scenario_c_unknown_category_is_malformed() {
    let raw = one_correction("0", "1", "\"style\"");
    assert_eq!(judge("0123456789", &raw), Err(ProofreadError::Malformed(raw.clone())));
}

#[test]
fn scenario_d_start_past_input_is_bounds_error() {
    let raw = one_correction("50", "52", "\"grammar\"");
    assert_eq!(judge("0123456789", &raw), Err(ProofreadError::Bounds { index: 0 }));
}

#[test]
fn scenario_e_failed_call_is_upstream_failure() {
    let input = String::from("Their going too the store.");
    let reply: Result<Vec<Option<String>>, String> = Err("connection refused".to_string());
    let r = candidate_text(reply);
    assert_eq!(r, Err(ProofreadError::Upstream("connection refused".to_string())));
    assert_eq!(input, "Their going too the store.");
}

#[test]
fn end_index_equal_to_length_is_refused() {
    let raw = one_correction("3", "10", "\"spelling\"");
    assert_eq!(judge("0123456789", &raw), Err(ProofreadError::Bounds { index: 0 }));
    let raw = one_correction("3", "9", "\"spelling\"");
    assert!(judge("0123456789", &raw).is_ok());
}

#[test]
fn inverted_span_is_refused() {
    let raw = one_correction("5", "4", "\"punctuation\"");
    assert_eq!(judge("0123456789", &raw), Err(ProofreadError::Bounds { index: 0 }));
    let raw = one_correction("5", "5", "\"punctuation\"");
    assert!(judge("0123456789", &raw).is_ok());
}

#[test]
fn bounds_error_names_first_offending_correction() {
    let raw = "{\"corrected\":\"x\",\"corrections\":[{\"startIndex\":0,\"endIndex\":1,\"correction\":\"a\",\"type\":\"grammar\",\"explanation\":\"e\"},{\"startIndex\":8,\"endIndex\":12,\"correction\":\"b\",\"type\":\"grammar\",\"explanation\":\"e\"},{\"startIndex\":30,\"endIndex\":31,\"correction\":\"c\",\"type\":\"grammar\",\"explanation\":\"e\"}]}";
    assert_eq!(judge("0123456789", raw), Err(ProofreadError::Bounds { index: 1 }));
}

#[test]
fn any_span_in_empty_input_is_refused() {
    let raw = one_correction("0", "0", "\"capitalization\"");
    assert_eq!(judge("", &raw), Err(ProofreadError::Bounds { index: 0 }));
}

#[test]
fn spans_count_characters_not_bytes() {
    let input = "h\u{e9}llo";
    assert_eq!(input.len(), 6);
    let raw = one_correction("1", "4", "\"spelling\"");
    assert!(judge(input, &raw).is_ok());
    let raw = one_correction("1", "5", "\"spelling\"");
    assert_eq!(judge(input, &raw), Err(ProofreadError::Bounds { index: 0 }));
}

#[test]
fn empty_correction_list_is_accepted() {
    let p = judge("fine", "{\"corrected\":\"fine\",\"corrections\":[]}").unwrap();
    assert_eq!(p.corrected, "fine");
    assert!(p.corrections.is_empty());
}

#[test]
fn text_that_is_not_json_is_malformed() {
    let raw = "Sure! Here are the corrections:";
    assert_eq!(judge("abc", raw), Err(ProofreadError::Malformed(raw.to_string())));
}

#[test]
fn wrong_member_types_are_malformed() {
    for (start, end, kind) in [
        ("-1", "2", "\"spelling\""),
        ("1.5", "2", "\"spelling\""),
        ("\"1\"", "2", "\"spelling\""),
        ("1", "null", "\"spelling\""),
        ("1", "2", "3"),
        ("18446744073709551616", "2", "\"spelling\""),
    ] {
        let raw = one_correction(start, end, kind);
        assert_eq!(judge("0123456789", &raw), Err(ProofreadError::Malformed(raw.clone())));
    }
    let raw = "[\"x\", []]";
    assert_eq!(judge("abc", raw), Err(ProofreadError::Malformed(raw.to_string())));
    let raw = "{\"corrected\":7,\"corrections\":[]}";
    assert_eq!(judge("abc", raw), Err(ProofreadError::Malformed(raw.to_string())));
}

#[test]
fn missing_correction_member_is_malformed() {
    let raw = "{\"corrected\":\"x\",\"corrections\":[{\"startIndex\":0,\"endIndex\":1,\"correction\":\"a\",\"type\":\"grammar\"}]}";
    assert_eq!(judge("0123456789", raw), Err(ProofreadError::Malformed(raw.to_string())));
}

#[test]
fn unknown_members_are_ignored() {
    let raw = "{\"corrected\":\"x\",\"note\":true,\"corrections\":[{\"startIndex\":0,\"endIndex\":1,\"correction\":\"a\",\"type\":\"missing-words\",\"explanation\":\"e\",\"extra\":[1,2]}]}";
    let p = judge("0123456789", raw).unwrap();
    assert_eq!(p.corrections[0].correction_type, CorrectionType::MissingWords);
}

#[test]
fn every_category_name_is_read_back() {
    for t in [
        CorrectionType::Spelling,
        CorrectionType::Punctuation,
        CorrectionType::Capitalization,
        CorrectionType::Preposition,
        CorrectionType::MissingWords,
        CorrectionType::Grammar,
    ] {
        assert_eq!(CorrectionType::from_name(t.name()), Some(t));
    }
    assert_eq!(CorrectionType::MissingWords.name(), "missing-words");
    assert_eq!(CorrectionType::from_name("Spelling"), None);
    assert_eq!(CorrectionType::from_name("style"), None);
    assert_eq!(CorrectionType::from_name(""), None);
}

#[test]
fn decoding_twice_gives_equal_values() {
    let doc = parse(SCENARIO_A).unwrap();
    let first = decode(&doc).unwrap();
    let second = decode(&doc).unwrap();
    assert_eq!(first, second);
    let input = "Their going too the store.";
    assert_eq!(judge(input, SCENARIO_A), judge(input, SCENARIO_A));
}

#[test]
fn find_outside_reports_first_position() {
    let c = |s: usize, e: usize| Correction {
        start_index: s,
        end_index: e,
        correction: String::new(),
        correction_type: CorrectionType::Grammar,
        explanation: String::new(),
    };
    assert_eq!(find_outside(&vec![c(0, 1), c(2, 3)], 4), None);
    assert_eq!(find_outside(&vec![c(0, 1), c(2, 4), c(9, 9)], 4), Some(1));
    assert_eq!(find_outside(&vec![], 0), None);
}

#[test]
fn first_candidate_text_is_taken() {
    let r = candidate_text(Ok(vec![Some("{}".to_string()), Some("[]".to_string())]));
    assert_eq!(r, Ok("{}".to_string()));
}

#[test]
fn reply_without_candidates_is_upstream_failure() {
    assert!(matches!(candidate_text(Ok(vec![])), Err(ProofreadError::Upstream(_))));
    assert!(matches!(
        candidate_text(Ok(vec![None, Some("{}".to_string())])),
        Err(ProofreadError::Upstream(_))
    ));
}

#[test]
fn request_carries_input_verbatim() {
    let input = "  Their going too the store.\n\"quoted\"  ";
    let r = compose_request(input);
    assert_eq!(r.user_text, input);
    assert_eq!(r.model, MODEL);
    assert_eq!(r.model, "gemini-2.0-pro-exp-02-05");
    assert_eq!(r.system_instruction, SYSTEM_PROMPT);
    assert_eq!(r.response_mime_type, RESPONSE_MIME_TYPE);
    assert_eq!(r.response_mime_type, "application/json");
}

fn field<'a>(v: &'a JsonValue, key: &str) -> &'a JsonValue {
    match v {
        JsonValue::Object(fields) => find_member(fields, key).unwrap(),
        _ => panic!("not an object"),
    }
}

fn string_of(v: &JsonValue) -> &str {
    match v {
        JsonValue::Str(s) => s.as_str(),
        _ => panic!("not a string"),
    }
}

#[test]
fn schema_names_fields_and_categories() {
    let s = response_schema();
    assert_eq!(string_of(field(&s, "type")), "object");
    let props = field(&s, "properties");
    assert_eq!(string_of(field(field(props, "corrected"), "type")), "string");
    let list = field(props, "corrections");
    assert_eq!(string_of(field(list, "type")), "array");
    let item = field(list, "items");
    let fields = field(item, "properties");
    assert_eq!(string_of(field(field(fields, "startIndex"), "type")), "integer");
    assert_eq!(string_of(field(field(fields, "endIndex"), "type")), "integer");
    let names: Vec<&str> = match field(field(fields, "type"), "enum") {
        JsonValue::Array(a) => a.iter().map(string_of).collect(),
        _ => panic!("not an array"),
    };
    assert_eq!(
        names,
        vec!["spelling", "punctuation", "capitalization", "preposition", "missing-words", "grammar"]
    );
    let required: Vec<&str> = match field(item, "required") {
        JsonValue::Array(a) => a.iter().map(string_of).collect(),
        _ => panic!("not an array"),
    };
    assert_eq!(required, vec!["startIndex", "endIndex", "correction", "type", "explanation"]);
}

#[test]
fn text_eq_compares_characters() {
    assert!(text_eq("h\u{e9}", "h\u{e9}"));
    assert!(!text_eq("ab", "abc"));
    assert!(!text_eq("ab", "ac"));
    assert!(text_eq("", ""));
}

#[test]
fn find_member_takes_first_of_equal_names() {
    let fields = vec![
        ("a".to_string(), JsonValue::Integer(1)),
        ("b".to_string(), JsonValue::Integer(2)),
        ("a".to_string(), JsonValue::Integer(3)),
    ];
    assert!(matches!(find_member(&fields, "a"), Some(JsonValue::Integer(1))));
    assert!(matches!(find_member(&fields, "b"), Some(JsonValue::Integer(2))));
    assert!(find_member(&fields, "c").is_none());
}
