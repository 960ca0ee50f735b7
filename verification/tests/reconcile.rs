use xeval::evals::{
    OpenAiCustomDataSourceConfig, OpenAiDataSourceConfig, OpenAiDataSourceConfigUpsert, OpenAiEval,
    OpenAiEvalUpsert, OpenAiGrader, OpenAiLogsDataSourceConfig,
    OpenAiStoredCompletionsDataSourceConfig,
};
use xeval::identity::content_hash;
use xeval::json::{Json, ObjectBuilder};
use xeval::literal::{
    OpenAiCustomDataSourceConfigType, OpenAiEvalObject, OpenAiLogsDataSourceConfigType,
    OpenAiStoredCompletionsDataSourceConfigType,
};
use xeval::reconcile::{
    decide, effect_of, find_remote, map_upsert_config, Decision, Effect, EvalCmd,
    ReconcileError, HASH_KEY, NAME_KEY,
};
use xeval::simple::{EvalSpec, SimpleFieldType, TestSpec};
use xeval::textmap::TextMap;
use xeval::to_openai::ValidationError;

fn math(reference: &str) -> EvalSpec {
    let mut schema: TextMap<SimpleFieldType> = TextMap::new();
    schema.insert("a".to_string(), SimpleFieldType::Number);
    schema.insert("b".to_string(), SimpleFieldType::Number);
    EvalSpec {
        name: "math".to_string(),
        schema,
        tests: vec![TestSpec::String {
            name: None,
            input: "{{response.text}}".to_string(),
            eq: Some(reference.to_string()),
            ne: None,
            like: None,
            ilike: None,
        }],
    }
}

fn invalid(name: &str) -> EvalSpec {
    EvalSpec {
        name: name.to_string(),
        schema: TextMap::new(),
        tests: vec![TestSpec::String {
            name: None,
            input: "x".to_string(),
            eq: None,
            ne: None,
            like: None,
            ilike: None,
        }],
    }
}

fn metadata(pairs: &[(&str, &str)]) -> TextMap<String> {
    let mut md: TextMap<String> = TextMap::new();
    for (k, v) in pairs {
        md.insert(k.to_string(), v.to_string());
    }
    md
}

fn entries(md: &TextMap<String>) -> Vec<(String, String)> {
    (0..md.len()).map(|i| (md.key(i).clone(), md.value(i).clone())).collect()
}

/// What the service holds once an upsert was sent: the content and the metadata as they
/// were sent, the schema of the items wrapped again as the service does it.
fn stored(id: &str, created_at: i64, spec: &EvalSpec, upsert: OpenAiEvalUpsert) -> OpenAiEval {
    let draft = spec.to_openai_eval().unwrap();
    OpenAiEval {
        object: OpenAiEvalObject,
        id: id.to_string(),
        name: upsert.name,
        created_at,
        metadata: upsert.metadata,
        data_source_config: draft.data_source_config,
        testing_criteria: upsert.testing_criteria,
    }
}

fn created(spec: &EvalSpec, remote: &Vec<OpenAiEval>) -> OpenAiEvalUpsert {
    match decide(spec, remote).unwrap() {
        Decision::Create(u) => u,
        other => panic!("not a creation: {:?}", other),
    }
}

fn named(id: &str, name: Option<&str>, created_at: i64) -> OpenAiEval {
    OpenAiEval {
        object: OpenAiEvalObject,
        id: id.to_string(),
        name: "any".to_string(),
        created_at,
        metadata: name.map(|n| metadata(&[(NAME_KEY, n)])),
        data_source_config: OpenAiDataSourceConfig::Logs(OpenAiLogsDataSourceConfig {
            kind: OpenAiLogsDataSourceConfigType,
            metadata: None,
        }),
        testing_criteria: vec![],
    }
}

#[test]
fn missing_remote_is_created() {
    let spec = math("{{answer}}");
    let upsert = created(&spec, &vec![]);
    assert_eq!(upsert.name, "math");
    let local_hash = content_hash(&spec.to_openai_eval().unwrap()).unwrap();
    assert_eq!(
        entries(upsert.metadata.as_ref().unwrap()),
        vec![
            ("xeval_hash".to_string(), local_hash),
            ("xeval_name".to_string(), "math".to_string()),
        ]
    );
    match &upsert.data_source_config {
        OpenAiDataSourceConfigUpsert::Custom(c) => {
            assert_eq!(c.include_sample_schema, Some(true));
            let item: serde_json::Value = serde_json::from_slice(&c.item_schema.encode().unwrap()).unwrap();
            let keys: Vec<&String> = item["properties"].as_object().unwrap().keys().collect();
            assert_eq!(keys, vec!["a", "answer", "b"]);
            assert_eq!(item["type"], "object");
        }
        other => panic!("not custom: {:?}", other),
    }
    assert_eq!(upsert.testing_criteria.len(), 1);
    match &upsert.testing_criteria[0] {
        OpenAiGrader::StringCheck(g) => {
            assert_eq!(g.input, "{{sample.output_text}}");
            assert_eq!(g.reference, "{{item.answer}}");
        }
        other => panic!("not a string check: {:?}", other),
    }
}

#[test]
fn second_run_is_a_no_op() {
    let spec = math("{{answer}}");
    let upsert = created(&spec, &vec![]);
    let remote = vec![stored("eval_1", 10, &spec, upsert)];
    assert!(matches!(decide(&spec, &remote).unwrap(), Decision::NoOp));
    let (decisions, error) = EvalCmd::run(&vec![math("{{answer}}")], &remote);
    assert!(error.is_none());
    assert_eq!(decisions.len(), 1);
    assert!(matches!(decisions[0], Decision::NoOp));
}

#[test]
fn drift_creates_and_leaves_the_old_one() {
    let old = math("{{answer}}");
    let remote = vec![stored("eval_1", 10, &old, created(&old, &vec![]))];
    let changed = math("{{other}}");
    let upsert = created(&changed, &remote);
    assert_eq!(upsert.name, "math");
    assert_eq!(remote.len(), 1);
    assert_eq!(remote[0].id, "eval_1");
    let after = vec![
        stored("eval_1", 10, &old, created(&old, &vec![])),
        stored("eval_2", 20, &changed, upsert),
    ];
    assert!(matches!(decide(&changed, &after).unwrap(), Decision::NoOp));
    assert!(matches!(decide(&old, &after).unwrap(), Decision::Create(_)));
}

#[test]
fn lagging_metadata_is_patched() {
    let spec = math("{{answer}}");
    let mut current = stored("eval_7", 10, &spec, created(&spec, &vec![]));
    let local_hash = content_hash(&spec.to_openai_eval().unwrap()).unwrap();
    current.metadata = Some(metadata(&[(NAME_KEY, "math"), (HASH_KEY, "stale"), ("team", "x")]));
    match decide(&spec, &vec![current]).unwrap() {
        Decision::PatchMetadata { remote_id, name, metadata } => {
            assert_eq!(remote_id, "eval_7");
            assert_eq!(name, "math");
            assert_eq!(
                entries(&metadata),
                vec![
                    ("xeval_hash".to_string(), local_hash),
                    ("xeval_name".to_string(), "math".to_string()),
                ]
            );
        }
        other => panic!("not a patch: {:?}", other),
    }
}

#[test]
fn missing_hash_mark_is_patched() {
    let spec = math("{{answer}}");
    let mut current = stored("eval_7", 10, &spec, created(&spec, &vec![]));
    current.metadata = Some(metadata(&[(NAME_KEY, "math")]));
    assert!(matches!(decide(&spec, &vec![current]).unwrap(), Decision::PatchMetadata { .. }));
}

#[test]
fn unmarked_remote_does_not_stand_for_the_name() {
    let spec = math("{{answer}}");
    let mut current = stored("eval_7", 10, &spec, created(&spec, &vec![]));
    current.metadata = None;
    assert!(matches!(decide(&spec, &vec![current]).unwrap(), Decision::Create(_)));
}

#[test]
fn latest_created_stands_for_the_name() {
    let remote = vec![
        named("a", Some("math"), 5),
        named("b", Some("other"), 50),
        named("c", Some("math"), 9),
        named("d", None, 99),
        named("e", Some("math"), 9),
        named("f", Some("math"), 1),
    ];
    assert_eq!(find_remote(&remote, "math"), Some(2));
    assert_eq!(find_remote(&remote, "other"), Some(1));
    assert_eq!(find_remote(&remote, "none"), None);
    assert_eq!(find_remote(&vec![], "math"), None);
    assert_eq!(find_remote(&vec![named("a", Some("math"), -3), named("b", Some("math"), -3)], "math"), Some(0));
}

#[test]
fn invalid_spec_is_refused() {
    assert_eq!(
        decide(&invalid("bad"), &vec![]).unwrap_err(),
        ReconcileError::Validation(ValidationError::AmbiguousOperator { index: 0 })
    );
    assert_eq!(
        ReconcileError::Validation(ValidationError::AmbiguousOperator { index: 0 }).message(),
        "string test requires exactly one of eq/ne/like/ilike"
    );
    assert_eq!(ReconcileError::Identity.message(), "the content of the eval cannot be hashed");
}

#[test]
fn run_stops_at_the_first_refusal() {
    let specs = vec![math("{{answer}}"), invalid("bad"), math("{{z}}")];
    let (decisions, error) = EvalCmd::run(&specs, &vec![]);
    assert_eq!(decisions.len(), 1);
    assert!(matches!(decisions[0], Decision::Create(_)));
    assert_eq!(error, Some(ReconcileError::Validation(ValidationError::AmbiguousOperator { index: 0 })));
}

#[test]
fn empty_run_decides_nothing() {
    assert!(!EvalCmd::needs_remote(&vec![]));
    assert!(EvalCmd::needs_remote(&vec![math("{{answer}}")]));
    let (decisions, error) = EvalCmd::run(&vec![], &vec![named("a", Some("math"), 1)]);
    assert!(decisions.is_empty());
    assert!(error.is_none());
}

#[test]
fn same_name_twice_is_decided_twice() {
    let specs = vec![math("{{answer}}"), math("{{answer}}")];
    let (decisions, error) = EvalCmd::run(&specs, &vec![]);
    assert!(error.is_none());
    assert_eq!(decisions.len(), 2);
    assert!(matches!(decisions[0], Decision::Create(_)));
    assert!(matches!(decisions[1], Decision::Create(_)));
}

#[test]
fn effects_name_the_spec() {
    let spec = math("{{answer}}");
    let create = decide(&spec, &vec![]).unwrap();
    assert!(matches!(effect_of(&create, "math"), Effect::Created(n) if n == "math"));
    assert!(matches!(effect_of(&Decision::NoOp, "m"), Effect::NoOp(n) if n == "m"));
    let patch = Decision::PatchMetadata {
        remote_id: "id".to_string(),
        name: "p".to_string(),
        metadata: TextMap::new(),
    };
    assert!(matches!(effect_of(&patch, "p"), Effect::Patched(n) if n == "p"));
}

#[test]
fn upsert_of_custom_source_sends_the_item_schema() {
    let item = ObjectBuilder::new().with("type", Json::text("object")).build();
    let schema = ObjectBuilder::new()
        .with("properties", ObjectBuilder::new().with("item", item).with("sample", Json::Null).build())
        .build();
    let cfg = OpenAiDataSourceConfig::Custom(OpenAiCustomDataSourceConfig {
        kind: OpenAiCustomDataSourceConfigType,
        schema,
    });
    match map_upsert_config(&cfg) {
        OpenAiDataSourceConfigUpsert::Custom(c) => {
            assert_eq!(String::from_utf8(c.item_schema.encode().unwrap()).unwrap(), r#"{"type":"object"}"#);
            assert_eq!(c.include_sample_schema, Some(true));
        }
        other => panic!("not custom: {:?}", other),
    }
}

#[test]
fn upsert_of_custom_source_without_item_sends_the_schema() {
    let schema = ObjectBuilder::new().with("properties", ObjectBuilder::new().build()).build();
    let cfg = OpenAiDataSourceConfig::Custom(OpenAiCustomDataSourceConfig {
        kind: OpenAiCustomDataSourceConfigType,
        schema,
    });
    match map_upsert_config(&cfg) {
        OpenAiDataSourceConfigUpsert::Custom(c) => {
            assert_eq!(String::from_utf8(c.item_schema.encode().unwrap()).unwrap(), r#"{"properties":{}}"#);
        }
        other => panic!("not custom: {:?}", other),
    }
    let flat = OpenAiDataSourceConfig::Custom(OpenAiCustomDataSourceConfig {
        kind: OpenAiCustomDataSourceConfigType,
        schema: Json::text("s"),
    });
    match map_upsert_config(&flat) {
        OpenAiDataSourceConfigUpsert::Custom(c) => {
            assert_eq!(c.item_schema.encode().unwrap(), b"\"s\"".to_vec());
        }
        other => panic!("not custom: {:?}", other),
    }
}

#[test]
fn upsert_of_other_sources_keeps_their_metadata() {
    let logs = OpenAiDataSourceConfig::Logs(OpenAiLogsDataSourceConfig {
        kind: OpenAiLogsDataSourceConfigType,
        metadata: Some(metadata(&[("k", "v")])),
    });
    match map_upsert_config(&logs) {
        OpenAiDataSourceConfigUpsert::Logs(c) => {
            assert_eq!(entries(c.metadata.as_ref().unwrap()), vec![("k".to_string(), "v".to_string())]);
        }
        other => panic!("not logs: {:?}", other),
    }
    let completions = OpenAiDataSourceConfig::StoredCompletions(OpenAiStoredCompletionsDataSourceConfig {
        kind: OpenAiStoredCompletionsDataSourceConfigType,
        metadata: None,
    });
    match map_upsert_config(&completions) {
        OpenAiDataSourceConfigUpsert::StoredCompletions(c) => assert!(c.metadata.is_none()),
        other => panic!("not stored completions: {:?}", other),
    }
}
