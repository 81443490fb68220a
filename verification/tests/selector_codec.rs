use chabbo::codec::settings_from_json;
use chabbo::codec::settings_to_json;
use chabbo::CorpusType;
use chabbo::Settings;

#[test]
fn parse_plain_name_is_file_selector() {
    let c = CorpusType::parse("gray.txt");
    assert!(matches!(&c, CorpusType::FromFile { path } if path == "gray.txt"));
    assert_eq!(c.display(), "gray.txt");
}

#[test]
fn parse_default_literal_is_default() {
    let c = CorpusType::parse("Default");
    assert!(matches!(c, CorpusType::Default));
    assert_eq!(CorpusType::parse("Default").display(), "Default");
}

#[test]
fn parse_is_case_sensitive() {
    let c = CorpusType::parse("default");
    assert!(matches!(&c, CorpusType::FromFile { path } if path == "default"));
}

#[test]
fn parse_empty_string_is_file_selector() {
    let c = CorpusType::parse("");
    assert!(matches!(&c, CorpusType::FromFile { path } if path.is_empty()));
    assert_eq!(c.display(), "");
}

#[test]
fn fresh_settings_have_default_corpus() {
    let s = Settings::new();
    assert!(matches!(s.active_corpus, CorpusType::Default));
    let d = Settings::default();
    assert!(matches!(d.active_corpus, CorpusType::Default));
}

#[test]
fn default_settings_serialize_exactly() {
    let s = Settings::new();
    assert_eq!(settings_to_json(&s), "{\"active_corpus\":\"Default\"}");
}

#[test]
fn file_settings_serialize_exactly() {
    let s = Settings { active_corpus: CorpusType::FromFile { path: "gray.txt".to_string() } };
    assert_eq!(
        settings_to_json(&s),
        "{\"active_corpus\":{\"FromFile\":{\"path\":\"gray.txt\"}}}"
    );
}

#[test]
fn settings_round_trip_default() {
    let s = Settings::new();
    let json = settings_to_json(&s);
    let back = settings_from_json(&json).unwrap();
    assert!(matches!(back.active_corpus, CorpusType::Default));
}

#[test]
fn settings_round_trip_file() {
    let s = Settings { active_corpus: CorpusType::FromFile { path: "a.txt".to_string() } };
    let json = settings_to_json(&s);
    let back = settings_from_json(&json).unwrap();
    assert!(matches!(&back.active_corpus, CorpusType::FromFile { path } if path == "a.txt"));
}

#[test]
fn settings_round_trip_path_with_escapes() {
    let tricky = "a\"b\\c\"\"d\\\\e";
    let s = Settings { active_corpus: CorpusType::FromFile { path: tricky.to_string() } };
    let json = settings_to_json(&s);
    let back = settings_from_json(&json).unwrap();
    assert!(matches!(&back.active_corpus, CorpusType::FromFile { path } if path == tricky));
}

#[test]
fn malformed_settings_parse_to_nothing() {
    assert!(settings_from_json("").is_none());
    assert!(settings_from_json("{}").is_none());
    assert!(settings_from_json("garbage").is_none());
    assert!(settings_from_json("{\"active_corpus\":\"default\"}").is_none());
    assert!(settings_from_json("{\"active_corpus\":{\"FromFile\":{\"path\":\"x\"}}").is_none());
    assert!(settings_from_json("{\"active_corpus\":{\"FromFile\":{\"path\":\"x\\q\"}}}").is_none());
    assert!(settings_from_json("{\"active_corpus\":{\"FromFile\":{\"path\":\"x\"y\"}}}").is_none());
}
