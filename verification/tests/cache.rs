use xeval::cache::{
    fresh, OpenAiLocalEvals, OpenAiLocalEvalsFile, SyncAction, SyncEvent, FRESHNESS_WINDOW,
};
use xeval::evals::{OpenAiDataSourceConfig, OpenAiEval, OpenAiLogsDataSourceConfig};
use xeval::literal::{OpenAiEvalObject, OpenAiLogsDataSourceConfigType};

fn eval(id: &str, name: &str) -> OpenAiEval {
    OpenAiEval {
        object: OpenAiEvalObject,
        id: id.to_string(),
        name: name.to_string(),
        created_at: 1,
        metadata: None,
        data_source_config: OpenAiDataSourceConfig::Logs(OpenAiLogsDataSourceConfig {
            kind: OpenAiLogsDataSourceConfigType,
            metadata: None,
        }),
        testing_criteria: vec![],
    }
}

fn cache(updated_at: i64, names: &[&str]) -> OpenAiLocalEvalsFile {
    OpenAiLocalEvalsFile {
        updated_at,
        evals: names.iter().enumerate().map(|(i, n)| eval(&format!("e{}", i), n)).collect(),
    }
}

fn ids(evals: &Vec<OpenAiEval>) -> Vec<String> {
    evals.iter().map(|e| e.id.clone()).collect()
}

#[test]
fn fresh_cache_is_returned() {
    let action = OpenAiLocalEvals::sync(cache(1000, &["a", "b"]), false, None, SyncEvent::Begin { now: 1299 });
    match action {
        SyncAction::Return(evals) => assert_eq!(ids(&evals), vec!["e0", "e1"]),
        other => panic!("not returned: {:?}", other),
    }
}

#[test]
fn stale_cache_probes() {
    let action = OpenAiLocalEvals::sync(
        cache(1000, &["a"]),
        false,
        Some("proj".to_string()),
        SyncEvent::Begin { now: 1300 },
    );
    match action {
        SyncAction::Probe(r) => {
            assert_eq!(r.project.as_deref(), Some("proj"));
            assert_eq!(r.after, None);
            assert_eq!(r.limit, Some(1));
            assert_eq!(r.order, Some("desc"));
            assert_eq!(r.order_by, Some("updated_at"));
        }
        other => panic!("not a probe: {:?}", other),
    }
}

#[test]
fn forced_sync_probes_a_fresh_cache() {
    let action = OpenAiLocalEvals::sync(cache(1000, &["a"]), true, None, SyncEvent::Begin { now: 1000 });
    assert!(matches!(action, SyncAction::Probe(_)));
}

#[test]
fn freshness_window_is_five_minutes() {
    assert_eq!(FRESHNESS_WINDOW, 300);
    assert!(fresh(299, 0));
    assert!(!fresh(300, 0));
    assert!(fresh(0, 0));
    assert!(fresh(0, 1000));
    assert!(!fresh(i64::MAX, i64::MIN));
    assert!(fresh(i64::MIN, i64::MAX));
}

#[test]
fn matching_probe_returns_the_stale_cache() {
    let action = OpenAiLocalEvals::sync(
        cache(0, &["a", "b"]),
        false,
        None,
        SyncEvent::Probed { latest: Some(eval("other-id", "a")) },
    );
    match action {
        SyncAction::Return(evals) => assert_eq!(ids(&evals), vec!["e0", "e1"]),
        other => panic!("not returned: {:?}", other),
    }
}

#[test]
fn differing_probe_lists_everything() {
    let action = OpenAiLocalEvals::sync(
        cache(0, &["a", "b"]),
        false,
        Some("p".to_string()),
        SyncEvent::Probed { latest: Some(eval("e0", "changed")) },
    );
    match action {
        SyncAction::ListAll(r) => {
            assert_eq!(r.project.as_deref(), Some("p"));
            assert_eq!(r.order, Some("desc"));
            assert_eq!(r.order_by, Some("updated_at"));
        }
        other => panic!("not a listing: {:?}", other),
    }
}

#[test]
fn empty_cache_and_empty_remote_agree() {
    let action = OpenAiLocalEvals::sync(OpenAiLocalEvalsFile::empty(), false, None, SyncEvent::Probed { latest: None });
    match action {
        SyncAction::Return(evals) => assert!(evals.is_empty()),
        other => panic!("not returned: {:?}", other),
    }
}

#[test]
fn empty_cache_and_filled_remote_differ() {
    let action = OpenAiLocalEvals::sync(
        OpenAiLocalEvalsFile::empty(),
        false,
        None,
        SyncEvent::Probed { latest: Some(eval("x", "a")) },
    );
    assert!(matches!(action, SyncAction::ListAll(_)));
    let action = OpenAiLocalEvals::sync(cache(0, &["a"]), false, None, SyncEvent::Probed { latest: None });
    assert!(matches!(action, SyncAction::ListAll(_)));
}

#[test]
fn listing_replaces_the_cache() {
    let action = OpenAiLocalEvals::sync(
        cache(5, &["old"]),
        false,
        None,
        SyncEvent::Listed { now: 77, evals: vec![eval("n1", "x"), eval("n2", "y")] },
    );
    match action {
        SyncAction::Store(file) => {
            assert_eq!(file.updated_at, 77);
            assert_eq!(ids(&file.evals), vec!["n1", "n2"]);
        }
        other => panic!("not stored: {:?}", other),
    }
}
