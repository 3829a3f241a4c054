//! The JSON renderer: golden output, escaping, and agreement with an
//! independent JSON implementation.

use fixture_gen::json::{JsonMember, JsonValue};
use fixture_gen::render::render_json;
use fixture_gen::suites::all_suites;

#[test]
fn scalars_render_exactly() {
    assert_eq!(render_json(&JsonValue::Null), b"null".to_vec());
    assert_eq!(render_json(&JsonValue::Bool(true)), b"true".to_vec());
    assert_eq!(render_json(&JsonValue::Bool(false)), b"false".to_vec());
    assert_eq!(render_json(&JsonValue::UInt(1134)), b"1134".to_vec());
    assert_eq!(
        render_json(&JsonValue::Str(String::from("ping"))),
        b"\"ping\"".to_vec()
    );
    assert_eq!(render_json(&JsonValue::Arr(vec![])), b"[]".to_vec());
    assert_eq!(render_json(&JsonValue::Obj(vec![])), b"{}".to_vec());
}

#[test]
fn nested_document_renders_pretty() {
    let doc = JsonValue::Obj(vec![
        JsonMember {
            key: String::from("op_code"),
            value: JsonValue::UInt(1),
        },
        JsonMember {
            key: String::from("tests"),
            value: JsonValue::Arr(vec![JsonValue::UInt(1), JsonValue::UInt(2)]),
        },
    ]);
    let rendered = render_json(&doc);
    let expected = "{\n  \"op_code\": 1,\n  \"tests\": [\n    1,\n    2\n  ]\n}";
    assert_eq!(String::from_utf8(rendered).unwrap(), expected);
}

#[test]
fn rendering_matches_independent_pretty_printer() {
    // Members are listed in alphabetical order because the reference
    // implementation's map iterates its keys sorted.
    let doc = JsonValue::Obj(vec![
        JsonMember {
            key: String::from("expect_success"),
            value: JsonValue::Bool(true),
        },
        JsonMember {
            key: String::from("name"),
            value: JsonValue::Str(String::from("normal_response")),
        },
        JsonMember {
            key: String::from("request_data"),
            value: JsonValue::Obj(vec![]),
        },
        JsonMember {
            key: String::from("versions"),
            value: JsonValue::Arr(vec![JsonValue::UInt(1), JsonValue::UInt(0)]),
        },
    ]);
    let rendered = String::from_utf8(render_json(&doc)).unwrap();

    let mut reference = serde_json::Map::new();
    reference.insert(String::from("expect_success"), serde_json::Value::Bool(true));
    reference.insert(
        String::from("name"),
        serde_json::Value::String(String::from("normal_response")),
    );
    reference.insert(
        String::from("request_data"),
        serde_json::Value::Object(serde_json::Map::new()),
    );
    reference.insert(
        String::from("versions"),
        serde_json::Value::Array(vec![
            serde_json::Value::from(1u64),
            serde_json::Value::from(0u64),
        ]),
    );
    let expected = serde_json::to_string_pretty(&serde_json::Value::Object(reference)).unwrap();
    assert_eq!(rendered, expected);
}

#[test]
fn strings_are_escaped() {
    let tricky = String::from("a\"b\\c");
    let rendered = render_json(&JsonValue::Str(tricky));
    assert_eq!(String::from_utf8(rendered).unwrap(), "\"a\\\"b\\\\c\"");

    let control = String::from("line\u{1}end");
    let rendered = render_json(&JsonValue::Str(control));
    assert_eq!(String::from_utf8(rendered).unwrap(), "\"line\\u0001end\"");
}

#[test]
fn suite_document_is_valid_json_with_the_fixture_fields() {
    let suites = all_suites().unwrap();
    for suite in suites {
        let op_code = suite.op_code;
        let n_tests = suite.tests.len();
        let first_request = suite.tests.first().map(|c| c.expected_request_binary.clone());
        let bytes = suite.to_json_bytes();
        let value: serde_json::Value = serde_json::from_slice(&bytes).unwrap();
        assert_eq!(value["op_code"], serde_json::Value::from(op_code as u64));
        let tests = value["tests"].as_array().unwrap();
        assert_eq!(tests.len(), n_tests);
        for case in tests {
            assert!(case["name"].is_string());
            assert!(case["expected_request_binary"].is_string());
            assert!(case["response_binary"].is_string());
            assert!(case["expect_success"].is_boolean());
        }
        if let Some(request_b64) = first_request {
            assert_eq!(
                tests[0]["expected_request_binary"],
                serde_json::Value::String(request_b64)
            );
        }
    }
}
