use chabbo::config::choose_backend;
use chabbo::config::default_port;
use chabbo::config::use_ephemeral;
use chabbo::config::BackendChoice;
use chabbo::config::Config;
use chabbo::local::LocalService;
use chabbo::remote::name_from_json;
use chabbo::remote::names_from_json;
use chabbo::remote::settings_from_record_json;
use chabbo::remote::settings_record_json;
use chabbo::CorpusType;
use chabbo::Settings;

#[test]
fn db_file_lives_in_config_dir() {
    let svc = LocalService::from_dirs("/data".to_string(), "/config".to_string());
    assert_eq!(svc.db_file_path(), "/config/db.json");
}

#[test]
fn absolute_paths_bypass_the_data_dir() {
    let svc = LocalService::from_dirs("/data".to_string(), "/config".to_string());
    assert_eq!(svc.get_fully_qualified_path("/abs/path.txt"), "/abs/path.txt");
}

#[test]
fn relative_names_resolve_under_the_data_dir() {
    let svc = LocalService::from_dirs("/data".to_string(), "/config".to_string());
    assert_eq!(svc.get_fully_qualified_path("x.txt"), "/data/x.txt");
    assert_eq!(svc.upload_path("x.txt"), "/data/x.txt");
}

#[test]
fn settings_file_text_round_trips() {
    let svc = LocalService::from_dirs("/data".to_string(), "/config".to_string());
    let s = Settings { active_corpus: CorpusType::FromFile { path: "x.txt".to_string() } };
    let text = svc.file_text_of_settings(&s);
    let back = svc.settings_of_file_text(&text).unwrap();
    assert!(matches!(&back.active_corpus, CorpusType::FromFile { path } if path == "x.txt"));
    assert!(svc.settings_of_file_text("not json").is_none());
}

#[test]
fn record_document_has_fixed_key_and_value() {
    let s = Settings::new();
    assert_eq!(
        settings_record_json(&s),
        "{\"key\":\"settings\",\"value\":{\"active_corpus\":\"Default\"}}"
    );
}

#[test]
fn record_document_round_trips() {
    let s = Settings { active_corpus: CorpusType::FromFile { path: "g.txt".to_string() } };
    let doc = settings_record_json(&s);
    let back = settings_from_record_json(&doc).unwrap();
    assert!(matches!(&back.active_corpus, CorpusType::FromFile { path } if path == "g.txt"));
    assert!(settings_from_record_json("{\"value\":{}}").is_none());
    assert!(settings_from_record_json("").is_none());
}

#[test]
fn upload_echo_carries_the_stored_name() {
    assert_eq!(name_from_json("{\"name\":\"a.txt\"}").unwrap(), "a.txt");
    assert_eq!(name_from_json("{\"name\":\"a\\\"b\"}").unwrap(), "a\"b");
    assert!(name_from_json("{\"names\":[\"a.txt\"]}").is_none());
    assert!(name_from_json("").is_none());
}

#[test]
fn listing_carries_every_name() {
    assert_eq!(
        names_from_json("{\"names\":[\"a.txt\",\"b.txt\"]}").unwrap(),
        vec!["a.txt", "b.txt"]
    );
    assert_eq!(names_from_json("{\"names\":[]}").unwrap(), Vec::<String>::new());
    assert_eq!(names_from_json("{\"names\":[\"a\\\\b\",\"c\\\"d\"]}").unwrap(), vec![
        "a\\b", "c\"d"
    ]);
}

#[test]
fn malformed_listing_is_a_broken_contract() {
    assert!(names_from_json("{\"files\":[\"a.txt\"]}").is_none());
    assert!(names_from_json("{\"names\":[\"a.txt\",]}").is_none());
    assert!(names_from_json("{\"names\":[\"a.txt]}").is_none());
    assert!(names_from_json("").is_none());
}

#[test]
fn env_defaults_are_fixed() {
    assert_eq!(default_port(), 3000);
    assert!(!use_ephemeral());
}

#[test]
fn project_key_selects_the_remote_backend() {
    let config = Config {
        deta_project_key: Some("a0123_dummykey".to_string()),
        port: 3000,
        use_ephemeral_backend: false,
    };
    let choice = choose_backend(&config);
    assert!(matches!(&choice, BackendChoice::Deta { project_key } if project_key == "a0123_dummykey"));
}

#[test]
fn ephemeral_flag_selects_the_in_memory_backend() {
    let config = Config { deta_project_key: None, port: 3000, use_ephemeral_backend: true };
    assert!(matches!(choose_backend(&config), BackendChoice::Ephemeral));
}

#[test]
fn plain_config_selects_the_local_backend() {
    let config = Config { deta_project_key: None, port: 3000, use_ephemeral_backend: false };
    assert!(matches!(choose_backend(&config), BackendChoice::Local));
}
