use sha2::Digest;
use xeval::evals::{
    OpenAiCustomDataSourceConfig, OpenAiDataSourceConfig, OpenAiEval, OpenAiGrader,
    OpenAiGraderPython, OpenAiGraderStringCheck, OpenAiGraderStringCheckOperation,
    OpenAiLogsDataSourceConfig,
};
use xeval::identity::{content_hash, identity_projection};
use xeval::json::{Json, ObjectBuilder};
use xeval::literal::{
    OpenAiCustomDataSourceConfigType, OpenAiEvalObject, OpenAiGraderPythonType,
    OpenAiGraderStringCheckType, OpenAiLogsDataSourceConfigType,
};
use xeval::simple::{EvalSpec, SimpleFieldType, TestSpec};
use xeval::textmap::TextMap;

fn grader(name: &str, reference: &str) -> OpenAiGrader {
    OpenAiGrader::StringCheck(OpenAiGraderStringCheck {
        kind: OpenAiGraderStringCheckType,
        name: name.to_string(),
        operation: OpenAiGraderStringCheckOperation::Eq,
        input: "{{sample.output_text}}".to_string(),
        reference: reference.to_string(),
    })
}

fn eval(id: &str, name: &str, created_at: i64, reference: &str) -> OpenAiEval {
    OpenAiEval {
        object: OpenAiEvalObject,
        id: id.to_string(),
        name: name.to_string(),
        created_at,
        metadata: None,
        data_source_config: OpenAiDataSourceConfig::Custom(OpenAiCustomDataSourceConfig {
            kind: OpenAiCustomDataSourceConfigType,
            schema: ObjectBuilder::new().with("type", Json::text("object")).build(),
        }),
        testing_criteria: vec![grader("g", reference)],
    }
}

fn digest_of_text(json: &str) -> String {
    let value: serde_json::Value = serde_json::from_str(json).unwrap();
    let bytes = serde_json::to_vec(&value).unwrap();
    let mut hasher = sha2::Sha256::new();
    hasher.update(&bytes);
    format!("{:x}", hasher.finalize())
}

#[test]
fn identity_is_the_digest_of_the_sorted_compact_content() {
    let e = eval("eval_1", "math", 17, "{{item.answer}}");
    let expected = digest_of_text(
        r#"{
            "name": "math",
            "data_source_config": {"type": "custom", "schema": {"type": "object"}},
            "testing_criteria": [{
                "type": "string_check", "name": "g", "operation": "eq",
                "input": "{{sample.output_text}}", "reference": "{{item.answer}}"
            }]
        }"#,
    );
    let hash = content_hash(&e).unwrap();
    assert_eq!(hash, expected);
    assert_eq!(hash.len(), 64);
}

#[test]
fn identity_of_known_bytes() {
    let e = OpenAiEval {
        object: OpenAiEvalObject,
        id: String::new(),
        name: "n".to_string(),
        created_at: 0,
        metadata: None,
        data_source_config: OpenAiDataSourceConfig::Logs(OpenAiLogsDataSourceConfig {
            kind: OpenAiLogsDataSourceConfigType,
            metadata: None,
        }),
        testing_criteria: vec![],
    };
    let bytes = identity_projection(&e).encode().unwrap();
    assert_eq!(
        String::from_utf8(bytes).unwrap(),
        r#"{"data_source_config":{"type":"logs"},"name":"n","testing_criteria":[]}"#
    );
}

#[test]
fn identity_ignores_id_time_and_metadata() {
    let a = eval("eval_1", "math", 1, "{{item.answer}}");
    let mut b = eval("eval_2", "math", 999, "{{item.answer}}");
    let mut md: TextMap<String> = TextMap::new();
    md.insert("xeval_name".to_string(), "math".to_string());
    b.metadata = Some(md);
    assert_eq!(content_hash(&a), content_hash(&b));
}

#[test]
fn identity_follows_each_content_field() {
    let base = content_hash(&eval("e", "math", 0, "{{item.answer}}"));
    assert_ne!(base, content_hash(&eval("e", "maths", 0, "{{item.answer}}")));
    assert_ne!(base, content_hash(&eval("e", "math", 0, "{{item.other}}")));
    let mut other_source = eval("e", "math", 0, "{{item.answer}}");
    other_source.data_source_config = OpenAiDataSourceConfig::Logs(OpenAiLogsDataSourceConfig {
        kind: OpenAiLogsDataSourceConfigType,
        metadata: None,
    });
    assert_ne!(base, content_hash(&other_source));
}

#[test]
fn identity_is_missing_for_a_number_that_is_none() {
    let mut e = eval("e", "math", 0, "r");
    e.testing_criteria = vec![OpenAiGrader::Python(OpenAiGraderPython {
        kind: OpenAiGraderPythonType,
        name: "p".to_string(),
        source: "def grade(): pass".to_string(),
        image_tag: "latest".to_string(),
        pass_threshold: "not a number".to_string(),
    })];
    assert_eq!(content_hash(&e), None);
    e.testing_criteria = vec![OpenAiGrader::Python(OpenAiGraderPython {
        kind: OpenAiGraderPythonType,
        name: "p".to_string(),
        source: "def grade(): pass".to_string(),
        image_tag: "latest".to_string(),
        pass_threshold: "0.5".to_string(),
    })];
    let expected = digest_of_text(
        r#"{"name":"math","data_source_config":{"type":"custom","schema":{"type":"object"}},
            "testing_criteria":[{"type":"python","name":"p","source":"def grade(): pass",
            "image_tag":"latest","pass_threshold":0.5}]}"#,
    );
    assert_eq!(content_hash(&e), Some(expected));
}

#[test]
fn encoding_agrees_with_the_serialiser() {
    let value = ObjectBuilder::new()
        .with("a", Json::Null)
        .with("b", Json::Bool(true))
        .with("c", Json::Bool(false))
        .with("d", Json::Number("-12".to_string()))
        .with("e", Json::Number("1.5".to_string()))
        .with("f", Json::text("quote \" slash \\ newline \n tab \t é 日本 \u{1}"))
        .with("g", Json::array(vec![Json::array(vec![]), Json::object(vec![]), Json::text("")]))
        .with("key \"q\"", Json::array(vec![Json::Number("0".to_string()), Json::Null]))
        .build();
    let bytes = value.encode().unwrap();
    let reparsed: serde_json::Value = serde_json::from_slice(&bytes).unwrap();
    assert_eq!(serde_json::to_vec(&reparsed).unwrap(), bytes);
    assert_eq!(reparsed["f"], "quote \" slash \\ newline \n tab \t é 日本 \u{1}");
    assert_eq!(reparsed["d"], -12);
    assert_eq!(reparsed["g"][2], "");
}

#[test]
fn encoding_of_small_values() {
    let text = |v: Json| String::from_utf8(v.encode().unwrap()).unwrap();
    assert_eq!(text(Json::Null), "null");
    assert_eq!(text(Json::Bool(true)), "true");
    assert_eq!(text(Json::Bool(false)), "false");
    assert_eq!(text(Json::Number("42".to_string())), "42");
    assert_eq!(text(Json::text("a\"b")), r#""a\"b""#);
    assert_eq!(text(Json::array(vec![])), "[]");
    assert_eq!(text(Json::object(vec![])), "{}");
    assert_eq!(text(Json::array(vec![Json::Null, Json::Bool(true)])), "[null,true]");
    assert_eq!(
        text(ObjectBuilder::new().with("k", Json::Null).with("l", Json::text("v")).build()),
        r#"{"k":null,"l":"v"}"#
    );
    assert_eq!(Json::Number("1e".to_string()).encode(), None);
    assert_eq!(Json::array(vec![Json::Null, Json::Number("x".to_string())]).encode(), None);
}

#[test]
fn members_are_found_by_name() {
    let inner = ObjectBuilder::new().with("item", Json::text("i")).build();
    let value = ObjectBuilder::new()
        .with("properties", inner)
        .with("twice", Json::text("first"))
        .with("twice", Json::text("second"))
        .build();
    let item = value.get("properties").and_then(|p| p.get("item")).unwrap();
    assert_eq!(item.encode().unwrap(), b"\"i\"".to_vec());
    assert_eq!(value.get("twice").unwrap().encode().unwrap(), b"\"first\"".to_vec());
    assert!(value.get("missing").is_none());
    assert!(Json::text("x").get("x").is_none());
    assert_eq!(value.copy().encode(), value.encode());
}

fn written(fields: &[(&str, SimpleFieldType)]) -> EvalSpec {
    let mut schema: TextMap<SimpleFieldType> = TextMap::new();
    for (k, t) in fields {
        schema.insert(k.to_string(), *t);
    }
    EvalSpec {
        name: "math".to_string(),
        schema,
        tests: vec![TestSpec::String {
            name: None,
            input: "{{response.text}}".to_string(),
            eq: Some("{{answer}}".to_string()),
            ne: None,
            like: None,
            ilike: None,
        }],
    }
}

#[test]
fn identity_is_the_same_however_the_spec_is_written() {
    let one = written(&[("a", SimpleFieldType::Number), ("b", SimpleFieldType::Number)]);
    let other = written(&[("b", SimpleFieldType::Number), ("a", SimpleFieldType::Number)]);
    let first = content_hash(&one.to_openai_eval().unwrap()).unwrap();
    let second = content_hash(&other.to_openai_eval().unwrap()).unwrap();
    let again = content_hash(&one.to_openai_eval().unwrap()).unwrap();
    assert_eq!(first.len(), 64);
    assert_eq!(first, second);
    assert_eq!(first, again);

    let changed = written(&[("a", SimpleFieldType::Number), ("b", SimpleFieldType::String)]);
    assert_ne!(first, content_hash(&changed.to_openai_eval().unwrap()).unwrap());
}
