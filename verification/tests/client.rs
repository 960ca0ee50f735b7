use xeval::auth::{Auth, AuthEvent, AuthStep};
use xeval::client::{
    check_response, status_is_success, verification_of, HttpMethod, Identified,
    ListProgress, ListStep, OpenAi, OpenAiAuth, OpenAiError, OpenAiEvalsError,
    OpenAiListAllProjectsRequest, OpenAiListProjectsPageRequest, OpenAiProject,
    OpenAiProjectsError, OpenAiToken, OpenAiTokenVerification,
};
use xeval::evals::{
    OpenAiDataSourceConfig, OpenAiDataSourceConfigUpsert, OpenAiEval, OpenAiEvalUpsert,
    OpenAiListAllEvalsRequest, OpenAiListEvalsPageRequest, OpenAiLogsDataSourceConfig,
    OpenAiLogsDataSourceConfigUpsert, OpenAiResponseList,
};
use xeval::global::AuthState;
use xeval::literal::{OpenAiEvalObject, OpenAiLogsDataSourceConfigType};
use xeval::text::{decimal_string, signed_decimal_string};
use xeval::textmap::TextMap;

fn client(token: &str) -> OpenAi {
    OpenAi { auth: OpenAiAuth::new(OpenAiToken::new(token.to_string())) }
}

fn eval(id: &str) -> OpenAiEval {
    OpenAiEval {
        object: OpenAiEvalObject,
        id: id.to_string(),
        name: "n".to_string(),
        created_at: 1,
        metadata: None,
        data_source_config: OpenAiDataSourceConfig::Logs(OpenAiLogsDataSourceConfig {
            kind: OpenAiLogsDataSourceConfigType,
            metadata: None,
        }),
        testing_criteria: vec![],
    }
}

fn page(ids: &[&str], has_more: bool) -> OpenAiResponseList<OpenAiEval> {
    OpenAiResponseList {
        object: "list".to_string(),
        data: ids.iter().map(|i| eval(i)).collect(),
        has_more,
    }
}

fn pairs(list: &Vec<(String, String)>) -> Vec<(&str, &str)> {
    list.iter().map(|(k, v)| (k.as_str(), v.as_str())).collect()
}

#[test]
fn empty_page_ends_the_listing_whatever_it_says() {
    let first = match ListProgress::start().absorb(page(&["a", "b"], true)) {
        ListStep::More(p) => p,
        other => panic!("ended early: {:?}", other),
    };
    assert_eq!(first.after.as_deref(), Some("b"));
    match first.absorb(page(&[], true)) {
        ListStep::Done(all) => {
            assert_eq!(all.iter().map(|e| e.id.as_str()).collect::<Vec<_>>(), vec!["a", "b"]);
        }
        other => panic!("went on: {:?}", other),
    }
}

#[test]
fn last_page_ends_the_listing() {
    let first = match ListProgress::start().absorb(page(&["a"], true)) {
        ListStep::More(p) => p,
        other => panic!("ended early: {:?}", other),
    };
    match first.absorb(page(&["b", "c"], false)) {
        ListStep::Done(all) => {
            assert_eq!(all.iter().map(|e| e.id.as_str()).collect::<Vec<_>>(), vec!["a", "b", "c"]);
        }
        other => panic!("went on: {:?}", other),
    }
    assert!(matches!(ListProgress::<OpenAiEval>::start().absorb(page(&[], false)), ListStep::Done(all) if all.is_empty()));
}

#[test]
fn next_page_starts_behind_the_last_item() {
    let params = OpenAiListAllEvalsRequest {
        project: Some("proj".to_string()),
        order: Some("desc"),
        order_by: Some("updated_at"),
    };
    let openai = client("t");
    let start: ListProgress<OpenAiEval> = ListProgress::start();
    let first = openai.list_all_evals(&params, &start);
    assert_eq!(first.after, None);
    assert_eq!(first.limit, Some(100));
    assert_eq!(first.project.as_deref(), Some("proj"));
    let progress = match start.absorb(page(&["x", "y"], true)) {
        ListStep::More(p) => p,
        other => panic!("ended early: {:?}", other),
    };
    let second = openai.list_all_evals(&params, &progress);
    assert_eq!(second.after.as_deref(), Some("y"));
    assert_eq!(second.limit, Some(100));
    assert_eq!(second.order, Some("desc"));
    assert_eq!(second.order_by, Some("updated_at"));
}

#[test]
fn projects_are_listed_the_same_way() {
    let project = OpenAiProject {
        id: "proj_a".to_string(),
        object: "organization.project".to_string(),
        name: "P".to_string(),
        status: "active".to_string(),
        created_at: 1,
        archived_at: None,
    };
    assert_eq!(project.id(), "proj_a");
    let progress = match ListProgress::start().absorb(OpenAiResponseList {
        object: "list".to_string(),
        data: vec![project],
        has_more: true,
    }) {
        ListStep::More(p) => p,
        other => panic!("ended early: {:?}", other),
    };
    let openai = client("t");
    let next = openai.list_all_projects(&OpenAiListAllProjectsRequest { include_archived: true }, &progress);
    assert_eq!(next.after.as_deref(), Some("proj_a"));
    assert!(next.include_archived);
    assert_eq!(next.limit, Some(100));
    let request = openai.list_projects_page(&OpenAiListProjectsPageRequest {
        after: Some("proj_a".to_string()),
        include_archived: false,
        limit: Some(7),
    });
    assert_eq!(request.url, "https://api.openai.com/v1/organization/projects");
    assert_eq!(pairs(&request.query), vec![("after", "proj_a"), ("include_archived", "false"), ("limit", "7")]);
    assert_eq!(pairs(&request.headers), vec![("Authorization", "Bearer t")]);
}

#[test]
fn page_request_carries_token_project_and_query() {
    let request = client("secret").list_evals_page(&OpenAiListEvalsPageRequest {
        project: Some("proj_1".to_string()),
        after: Some("eval_9".to_string()),
        limit: Some(100),
        order: Some("desc"),
        order_by: Some("updated_at"),
    });
    assert_eq!(request.method, HttpMethod::Get);
    assert_eq!(request.url, "https://api.openai.com/v1/evals");
    assert_eq!(pairs(&request.headers), vec![("Authorization", "Bearer secret"), ("OpenAI-Project", "proj_1")]);
    assert_eq!(
        pairs(&request.query),
        vec![("after", "eval_9"), ("limit", "100"), ("order", "desc"), ("order_by", "updated_at")]
    );
    assert!(request.body.is_none());
}

#[test]
fn page_request_leaves_out_what_is_not_given() {
    let request = client("t").list_evals_page(&OpenAiListEvalsPageRequest {
        project: Some(String::new()),
        after: None,
        limit: Some(1),
        order: None,
        order_by: Some("updated_at"),
    });
    assert_eq!(pairs(&request.headers), vec![("Authorization", "Bearer t")]);
    assert_eq!(pairs(&request.query), vec![("limit", "1"), ("order_by", "updated_at")]);
}

#[test]
fn create_request_holds_the_upsert() {
    let mut md: TextMap<String> = TextMap::new();
    md.insert("xeval_name".to_string(), "math".to_string());
    let upsert = OpenAiEvalUpsert {
        name: "math".to_string(),
        metadata: Some(md),
        data_source_config: OpenAiDataSourceConfigUpsert::Logs(OpenAiLogsDataSourceConfigUpsert {
            kind: OpenAiLogsDataSourceConfigType,
            metadata: None,
        }),
        testing_criteria: vec![],
    };
    let request = client("t").create_eval(None, &upsert);
    assert_eq!(request.method, HttpMethod::Post);
    assert_eq!(request.url, "https://api.openai.com/v1/evals");
    assert!(request.query.is_empty());
    assert_eq!(
        String::from_utf8(request.body.unwrap().encode().unwrap()).unwrap(),
        r#"{"data_source_config":{"type":"logs"},"metadata":{"xeval_name":"math"},"name":"math","testing_criteria":[]}"#
    );
}

#[test]
fn patch_request_holds_only_name_and_metadata() {
    let mut md: TextMap<String> = TextMap::new();
    md.insert("xeval_hash".to_string(), "abc".to_string());
    md.insert("xeval_name".to_string(), "math".to_string());
    let openai = client("t");
    let request = openai.update_eval_metadata(Some("proj"), "eval_1", Some("math"), Some(&md));
    assert_eq!(request.method, HttpMethod::Post);
    assert_eq!(request.url, "https://api.openai.com/v1/evals/eval_1");
    assert_eq!(pairs(&request.headers), vec![("Authorization", "Bearer t"), ("OpenAI-Project", "proj")]);
    assert_eq!(
        String::from_utf8(request.body.unwrap().encode().unwrap()).unwrap(),
        r#"{"metadata":{"xeval_hash":"abc","xeval_name":"math"},"name":"math"}"#
    );
    let bare = openai.update_eval_metadata(None, "e", None, None);
    assert_eq!(bare.body.unwrap().encode().unwrap(), b"{}".to_vec());
    let name_only = openai.update_eval_metadata(None, "e", Some("n"), None);
    assert_eq!(name_only.body.unwrap().encode().unwrap(), br#"{"name":"n"}"#.to_vec());
}

#[test]
fn verify_request_goes_to_the_models() {
    let request = client("tok").verify();
    assert_eq!(request.method, HttpMethod::Get);
    assert_eq!(request.url, "https://api.openai.com/v1/models");
    assert_eq!(pairs(&request.headers), vec![("Authorization", "Bearer tok")]);
}

#[test]
fn statuses_are_told_apart() {
    assert!(status_is_success(200));
    assert!(status_is_success(299));
    assert!(!status_is_success(199));
    assert!(!status_is_success(300));
    assert_eq!(verification_of(204), OpenAiTokenVerification::Valid);
    assert_eq!(verification_of(401), OpenAiTokenVerification::Invalid { status: 401 });
    assert!(OpenAi::new(OpenAiAuth::new(OpenAiToken::from_str("t")), verification_of(200)).is_some());
    assert!(OpenAi::new(OpenAiAuth::new(OpenAiToken::from_str("t")), verification_of(403)).is_none());
    assert_eq!(OpenAi::from_token(OpenAiToken::from_str("t"), verification_of(200)).unwrap().auth.token(), "t");
    assert!(OpenAi::from_token(OpenAiToken::from_str("t"), verification_of(500)).is_none());
}

#[test]
fn failed_response_holds_status_and_body() {
    assert_eq!(check_response(201, "{}".to_string()).unwrap(), "{}");
    match check_response(404, "not found".to_string()).unwrap_err() {
        OpenAiEvalsError::Http(status, body) => {
            assert_eq!(status, "404");
            assert_eq!(body, "not found");
        }
        other => panic!("not an HTTP error: {:?}", other),
    }
    assert!(check_response(302, String::new()).is_err());
}

#[test]
fn errors_say_what_went_wrong() {
    assert_eq!(OpenAiEvalsError::Request("x".to_string()).message(), "Failed to perform evals request: x");
    assert_eq!(OpenAiEvalsError::Body("x".to_string()).message(), "Failed to obtain body text: x");
    assert_eq!(OpenAiEvalsError::Deserialize("x".to_string()).message(), "Failed to parse evals response: x");
    assert_eq!(OpenAiEvalsError::Serialize("x".to_string()).message(), "Failed to serialize evals request: x");
    assert_eq!(OpenAiEvalsError::Http("500".to_string(), "boom".to_string()).message(), "HTTP 500: boom");
    assert_eq!(
        OpenAiError::VerificationRequest("x".to_string()).message(),
        "Failed to perform verification request: x"
    );
    assert_eq!(
        OpenAiError::InvalidToken("401".to_string(), "Unauthorized".to_string()).message(),
        "Failed to verify token (server responded with 401 Unauthorized)"
    );
    assert_eq!(OpenAiError::ProjectsRequest("x".to_string()).message(), "Failed to perform projects request: x");
    assert_eq!(
        OpenAiError::ProjectsDeserialize("x".to_string()).message(),
        "Failed to parse projects response: x"
    );
    assert_eq!(
        OpenAiProjectsError::Request("x".to_string()).message(),
        "Failed to perform projects request: x"
    );
    assert_eq!(
        OpenAiProjectsError::Deserialize("x".to_string()).message(),
        "Failed to parse projects response: x"
    );
}

#[test]
fn numbers_are_written_in_decimal() {
    assert_eq!(decimal_string(0), "0");
    assert_eq!(decimal_string(7), "7");
    assert_eq!(decimal_string(100), "100");
    assert_eq!(decimal_string(u64::MAX), "18446744073709551615");
    assert_eq!(signed_decimal_string(0), "0");
    assert_eq!(signed_decimal_string(-1), "-1");
    assert_eq!(signed_decimal_string(1700000000), "1700000000");
    assert_eq!(signed_decimal_string(i64::MIN), "-9223372036854775808");
    assert_eq!(signed_decimal_string(i64::MAX), "9223372036854775807");
}

#[test]
fn token_is_kept_as_given() {
    let token = OpenAiToken::new("sk-1".to_string());
    assert_eq!(token.as_str(), "sk-1");
    let auth = OpenAiAuth::new(token);
    assert_eq!(auth.token(), "sk-1");
    assert_eq!(OpenAiToken::from("sk-2".to_string()).as_str(), "sk-2");
    assert_eq!(OpenAiToken::from_str("sk-3").as_str(), "sk-3");
    assert_eq!(eval("e1").id(), "e1");
}

#[test]
fn stored_token_is_used() {
    match Auth::ensure(AuthState::New, AuthEvent::Detected { stored: Some(client("t")) }) {
        AuthStep::Done { auth, notice } => {
            assert_eq!(auth.openai.auth.token(), "t");
            assert_eq!(notice, Some("Using OpenAI API token stored in state"));
        }
        other => panic!("not done: {:?}", other),
    }
    match Auth::ensure(AuthState::Existing, AuthEvent::Detected { stored: Some(client("t")) }) {
        AuthStep::Done { notice, .. } => assert_eq!(notice, None),
        other => panic!("not done: {:?}", other),
    }
}

#[test]
fn token_is_asked_for_tried_and_kept() {
    assert!(matches!(Auth::ensure(AuthState::Existing, AuthEvent::Detected { stored: None }), AuthStep::AskToken));
    match Auth::ensure(AuthState::New, AuthEvent::Entered { token: Some(OpenAiToken::from_str("n")) }) {
        AuthStep::Verify { token } => assert_eq!(token.as_str(), "n"),
        other => panic!("not tried: {:?}", other),
    }
    match Auth::ensure(AuthState::New, AuthEvent::Verified { client: Some(client("n")) }) {
        AuthStep::Keep { auth, message } => {
            assert_eq!(auth.openai.auth.token(), "n");
            assert_eq!(message, "OpenAI API token verified & saved");
        }
        other => panic!("not kept: {:?}", other),
    }
}

#[test]
fn refused_token_may_be_tried_again() {
    match Auth::ensure(AuthState::New, AuthEvent::Verified { client: None }) {
        AuthStep::AskAgain { warning } => assert_eq!(warning, "Token is invalid!"),
        other => panic!("not asked: {:?}", other),
    }
    assert!(matches!(Auth::ensure(AuthState::New, AuthEvent::Answered { again: true }), AuthStep::AskToken));
    match Auth::ensure(AuthState::New, AuthEvent::Answered { again: false }) {
        AuthStep::GiveUp { warning } => assert_eq!(warning, "No token provided"),
        other => panic!("not given up: {:?}", other),
    }
    match Auth::ensure(AuthState::New, AuthEvent::Entered { token: None }) {
        AuthStep::GiveUp { warning } => assert_eq!(warning, "No token provided"),
        other => panic!("not given up: {:?}", other),
    }
}
