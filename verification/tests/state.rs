use std::path::PathBuf;
use xeval::client::{OpenAiAuth, OpenAiToken};
use xeval::global::{
    Global, GlobalAuth, GlobalAuthError, GlobalDir, GlobalDirError, GlobalError, OpenAiAuthError,
};
use xeval::project::{
    Config, ConfigError, OpenAiLocalProjectState, Project, ProjectStateFile, CONFIG_FILENAME,
    DEFAULT_EVALS_GLOB,
};
use xeval::text::{contains_char, starts_with, str_eq, str_lt};
use xeval::textmap::TextMap;

fn global(text: Option<&str>) -> Global {
    let dir = GlobalDir::resolve(Some(PathBuf::from("/home/u"))).unwrap();
    let auth = GlobalAuth::resolve(&dir, text).unwrap();
    Global { dir, auth }
}

#[test]
fn config_path_is_resolved() {
    assert_eq!(Config::resolve_path(&PathBuf::from("/p")), PathBuf::from("/p/xeval.toml"));
    assert_eq!(Config::resolve_path(&PathBuf::from("/p/xeval.toml")), PathBuf::from("/p/xeval.toml"));
    assert_eq!(Config::resolve_path(&PathBuf::from("xeval.toml")), PathBuf::from("xeval.toml"));
    assert_eq!(Config::resolve_path(&PathBuf::from("/p/my-xeval.toml")), PathBuf::from("/p/my-xeval.toml/xeval.toml"));
    assert_eq!(CONFIG_FILENAME, "xeval.toml");
}

#[test]
fn config_is_not_replaced_unless_forced() {
    let path = PathBuf::from("/p");
    assert_eq!(Config::init(&path, false, false).unwrap().evals, "./evals/**/*.yaml");
    assert_eq!(Config::init(&path, true, true).unwrap().evals, DEFAULT_EVALS_GLOB);
    assert_eq!(Config::init(&path, true, false).unwrap().evals, DEFAULT_EVALS_GLOB);
    match Config::init(&path, false, true).unwrap_err() {
        ConfigError::AlreadyExists(p) => assert_eq!(p, PathBuf::from("/p/xeval.toml")),
        other => panic!("not refused: {:?}", other),
    }
    assert_eq!(Config::default().evals, "./evals/**/*.yaml");
    assert_eq!(Config::default_evals_glob(), "./evals/**/*.yaml");
}

#[test]
fn given_path_is_taken_at_its_word() {
    assert_eq!(Config::find(&Some(PathBuf::from("/p")), true), vec![PathBuf::from("/p/xeval.toml")]);
    assert_eq!(Config::find(&Some(PathBuf::from("/p/other.toml")), false), vec![PathBuf::from("/p/other.toml")]);
}

#[test]
fn search_climbs_from_the_current_directory() {
    assert_eq!(Config::find(&None, false), vec![PathBuf::from("./xeval.toml"), PathBuf::from("xeval.toml")]);
    match Config::not_found() {
        ConfigError::NotFound(p) => assert_eq!(p, PathBuf::from(".")),
        other => panic!("not the search error: {:?}", other),
    }
}

#[test]
fn project_knows_its_files() {
    let project = Project::from_config(PathBuf::from("/p"), Config::default(), None);
    assert_eq!(project.get_config_path(), PathBuf::from("/p/xeval.toml"));
    let other = Project::from_config(PathBuf::from("/p"), Config::default(), Some(PathBuf::from("/c/x.toml")));
    assert_eq!(other.get_config_path(), PathBuf::from("/c/x.toml"));
    assert_eq!(ProjectStateFile::ensure(&project, "a/b.json").path, PathBuf::from("/p/.xeval/a/b.json"));
    let state = OpenAiLocalProjectState::new(&project);
    assert_eq!(state.evals_path(), &PathBuf::from("/p/.xeval/openai/evals.json"));
}

#[test]
fn shared_state_lies_under_the_home() {
    let dir = GlobalDir::resolve(Some(PathBuf::from("/home/u"))).unwrap();
    assert_eq!(dir.path, PathBuf::from("/home/u/.local/state/xeval"));
    assert_eq!(dir.resolve_path("auth.toml"), PathBuf::from("/home/u/.local/state/xeval/auth.toml"));
    assert_eq!(GlobalAuth::resolve_path(&dir), PathBuf::from("/home/u/.local/state/xeval/auth.toml"));
}

#[test]
fn credentials_are_read_from_the_document() {
    let g = global(Some("[openai]\napi_token = \"sk-1\"\nother = 3\n\n[x]\ny = \"z\"\n"));
    assert_eq!(g.auth.get("openai", "api_token"), Some("sk-1".to_string()));
    assert_eq!(g.auth.get("x", "y"), Some("z".to_string()));
    assert_eq!(g.auth.get("openai", "other"), None);
    assert_eq!(g.auth.get("openai", "missing"), None);
    assert_eq!(g.auth.get("missing", "api_token"), None);
    assert_eq!(OpenAiAuth::detect(&g).unwrap().token(), "sk-1");
    assert!(OpenAiAuth::detect(&global(None)).is_none());
    assert!(OpenAiAuth::detect(&global(Some(""))).is_none());
}

#[test]
fn unreadable_document_names_the_file() {
    let dir = GlobalDir::resolve(Some(PathBuf::from("/home/u"))).unwrap();
    match GlobalAuth::resolve(&dir, Some("not = = toml")).unwrap_err() {
        GlobalAuthError::Parse(p) => assert_eq!(p, PathBuf::from("/home/u/.local/state/xeval/auth.toml")),
        other => panic!("not a parse error: {:?}", other),
    }
}

#[test]
fn credentials_are_put_into_the_document() {
    let mut g = global(Some("# kept\n[x]\ny = \"z\"\n"));
    OpenAiAuth::new(OpenAiToken::from_str("sk-2")).persist(&mut g).unwrap();
    assert_eq!(g.auth.get("openai", "api_token"), Some("sk-2".to_string()));
    assert_eq!(g.auth.get("x", "y"), Some("z".to_string()));
    let text = g.auth.persist();
    assert!(text.contains("# kept"));
    assert!(text.contains("api_token = \"sk-2\""));
    let again = global(Some(&text));
    assert_eq!(OpenAiAuth::detect(&again).unwrap().token(), "sk-2");
    g.auth.update("openai", "api_token", "sk-3").unwrap();
    assert_eq!(g.auth.get("openai", "api_token"), Some("sk-3".to_string()));
}

#[test]
fn what_is_no_table_is_not_written_into() {
    let mut g = global(Some("openai = 1\n"));
    match g.auth.update("openai", "api_token", "t").unwrap_err() {
        GlobalAuthError::Update(name) => assert_eq!(name, "openai"),
        other => panic!("not an update error: {:?}", other),
    }
    assert_eq!(g.auth.persist(), "openai = 1\n");
    assert!(matches!(
        OpenAiAuth::new(OpenAiToken::from_str("t")).persist(&mut g).unwrap_err(),
        OpenAiAuthError::Update(_)
    ));
}

#[test]
fn map_keeps_its_keys_in_order() {
    let mut m: TextMap<String> = TextMap::new();
    assert_eq!(m.len(), 0);
    for (k, v) in [("b", "1"), ("a", "2"), ("c", "3"), ("ab", "4"), ("B", "5"), ("", "6"), ("é", "7")] {
        m.insert(k.to_string(), v.to_string());
    }
    let keys: Vec<String> = (0..m.len()).map(|i| m.key(i).clone()).collect();
    assert_eq!(keys, vec!["", "B", "a", "ab", "b", "c", "é"]);
    m.insert("a".to_string(), "new".to_string());
    assert_eq!(m.len(), 7);
    assert_eq!(m.get("a"), Some(&"new".to_string()));
    assert_eq!(m.get("ab"), Some(&"4".to_string()));
    assert_eq!(m.get("zz"), None);
    assert!(m.contains_key(""));
    assert!(!m.contains_key("A"));
    assert_eq!(m.position("b"), Some(4));
    assert_eq!(m.position("bb"), None);
    assert_eq!(m.value(1), "5");
    let copy = m.copy();
    assert_eq!(copy.len(), 7);
    assert_eq!(copy.get("a"), Some(&"new".to_string()));
}

#[test]
fn strings_compare_as_the_standard_library_compares() {
    let words = ["", "a", "A", "ab", "b", "é", "e", "日本", "zz", "a\u{10FFFF}", "a "];
    for x in words {
        for y in words {
            assert_eq!(str_lt(x, y), x < y, "{:?} < {:?}", x, y);
            assert_eq!(str_eq(x, y), x == y);
            assert_eq!(starts_with(x, y), x.starts_with(y));
        }
        assert_eq!(contains_char(x, 'a'), x.contains('a'));
        assert_eq!(contains_char(x, '本'), x.contains('本'));
    }
}

#[test]
fn state_errors_say_what_went_wrong() {
    assert_eq!(Config::not_found().message(), "Failed to find config file at .");
    assert_eq!(ConfigError::ReadFailed("x".to_string()).message(), "Failed to read config file");
    assert_eq!(
        ConfigError::AlreadyExists(PathBuf::from("/p/xeval.toml")).message(),
        "Config file already exists, pass --force to overwrite"
    );
    assert_eq!(GlobalDirError::ResolveHome.message(), "Failed to resolve home directory");
    assert_eq!(
        GlobalDirError::Create("denied".to_string()).message(),
        "Failed to create global directory: denied"
    );
    assert_eq!(GlobalAuthError::Parse(PathBuf::from("/s/auth.toml")).message(), "Failed to parse /s/auth.toml");
    assert_eq!(GlobalAuthError::Update("openai".to_string()).message(), "Failed to update openai key");
    assert_eq!(GlobalAuthError::Write(PathBuf::from("/s/auth.toml")).message(), "Failed to write /s/auth.toml");
    assert_eq!(
        GlobalError::Dir(GlobalDirError::ResolveHome).message(),
        "Failed to resolve home directory"
    );
    assert_eq!(
        GlobalError::Auth(GlobalAuthError::Update("openai".to_string())).message(),
        "Failed to update openai key"
    );
    assert_eq!(
        OpenAiAuthError::Update("openai".to_string()).message(),
        "Failed to update OpenAI auth token: openai"
    );
    assert_eq!(
        OpenAiAuthError::Global(GlobalError::Dir(GlobalDirError::ResolveHome)).message(),
        "Failed to resolve home directory"
    );
}

#[test]
fn shared_state_needs_a_home() {
    assert!(matches!(GlobalDir::resolve(None).unwrap_err(), GlobalDirError::ResolveHome));
    let dir = GlobalDir::resolve(Some(PathBuf::from("/home/u"))).unwrap();
    assert_eq!(dir.path, PathBuf::from("/home/u/.local/state/xeval"));
}

#[test]
fn shared_state_is_read_and_written() {
    let dir = GlobalDir::resolve(Some(PathBuf::from("/home/u"))).unwrap();
    let mut g = Global::resolve(dir, Some("[openai]\napi_token = \"sk-9\"\n")).unwrap();
    assert_eq!(OpenAiAuth::detect(&g).unwrap().token(), "sk-9");
    OpenAiAuth::new(OpenAiToken::from_str("sk-10")).persist(&mut g).unwrap();
    let (path, text) = g.persist_auth();
    assert_eq!(path, PathBuf::from("/home/u/.local/state/xeval/auth.toml"));
    assert_eq!(text, "[openai]\napi_token = \"sk-10\"\n");

    let dir = GlobalDir::resolve(Some(PathBuf::from("/home/u"))).unwrap();
    let empty = Global::resolve(dir, None).unwrap();
    assert!(OpenAiAuth::detect(&empty).is_none());
    assert_eq!(empty.persist_auth().1, "");

    let dir = GlobalDir::resolve(Some(PathBuf::from("/home/u"))).unwrap();
    match Global::resolve(dir, Some("[")).unwrap_err() {
        GlobalError::Auth(GlobalAuthError::Parse(p)) => {
            assert_eq!(p, PathBuf::from("/home/u/.local/state/xeval/auth.toml"))
        }
        other => panic!("not a parse error: {:?}", other),
    }
}

#[test]
fn new_config_is_written_where_none_is_or_when_forced() {
    let path = PathBuf::from("/p");
    assert_eq!(Config::write_new(&path, false, false).unwrap(), PathBuf::from("/p/xeval.toml"));
    assert_eq!(Config::write_new(&path, true, true).unwrap(), PathBuf::from("/p/xeval.toml"));
    match Config::write_new(&path, false, true).unwrap_err() {
        ConfigError::AlreadyExists(p) => assert_eq!(p, PathBuf::from("/p/xeval.toml")),
        other => panic!("not refused: {:?}", other),
    }
}
