use chabbo::ephemeral::EphemeralService;
use chabbo::Backend;
use chabbo::CorpusType;
use chabbo::Database;
use chabbo::FileStorage;
use chabbo::Settings;
use chabbo::StoreError;

#[test]
fn upload_then_read_back() {
    let mut b = EphemeralService::new();
    let stored = b.upload_file("a.txt", b"hello").unwrap();
    assert_eq!(stored, "a.txt");
    assert_eq!(b.get_file_contents("a.txt").unwrap(), "hello");
}

#[test]
fn missing_file_is_not_found() {
    let b = EphemeralService::new();
    let e = b.get_file_contents("missing").unwrap_err();
    assert_eq!(e, StoreError::NotFound);
}

#[test]
fn list_reflects_uploads_in_order() {
    let mut b = EphemeralService::new();
    assert!(b.list_files().unwrap().is_empty());
    b.upload_file("one.txt", b"1").unwrap();
    b.upload_file("two.txt", b"2").unwrap();
    assert_eq!(b.list_files().unwrap(), vec!["one.txt", "two.txt"]);
}

#[test]
fn overwrite_keeps_one_entry() {
    let mut b = EphemeralService::new();
    b.upload_file("a.txt", b"old").unwrap();
    b.upload_file("a.txt", b"new").unwrap();
    assert_eq!(b.list_files().unwrap(), vec!["a.txt"]);
    assert_eq!(b.get_file_contents("a.txt").unwrap(), "new");
}

#[test]
fn get_settings_self_heals_empty_store() {
    let mut b = EphemeralService::new();
    assert!(b.try_get_settings().is_none());
    let s = b.get_settings().unwrap();
    assert!(matches!(s.active_corpus, CorpusType::Default));
    let again = b.try_get_settings().unwrap();
    assert!(matches!(again.active_corpus, CorpusType::Default));
}

#[test]
fn written_settings_are_read_back() {
    let mut b = EphemeralService::new();
    let s = Settings { active_corpus: CorpusType::FromFile { path: "x.txt".to_string() } };
    b.write_settings(&s).unwrap();
    let back = b.try_get_settings().unwrap();
    assert!(matches!(&back.active_corpus, CorpusType::FromFile { path } if path == "x.txt"));
}

#[test]
fn active_corpus_name_defaults_then_follows_writes() {
    let mut b = EphemeralService::new();
    assert_eq!(b.get_active_corpus_name().unwrap(), "Default");
    let new_name = b.set_active_corpus_name("gray.txt").unwrap();
    assert_eq!(new_name, "gray.txt");
    assert_eq!(b.get_active_corpus_name().unwrap(), "gray.txt");
    assert_eq!(b.set_active_corpus_name("Default").unwrap(), "Default");
    assert_eq!(b.get_active_corpus_name().unwrap(), "Default");
}

#[test]
fn initial_corpus_is_bundled_text_by_default() {
    let mut b = EphemeralService::new();
    let text = b.get_initial_corpus("the bundled corpus").unwrap();
    assert_eq!(text, "the bundled corpus");
}

#[test]
fn initial_corpus_follows_active_file() {
    let mut b = EphemeralService::new();
    b.upload_file("gray.txt", b"the cat sat").unwrap();
    b.set_active_corpus_name("gray.txt").unwrap();
    let text = b.get_initial_corpus("the bundled corpus").unwrap();
    assert_eq!(text, "the cat sat");
}

#[test]
fn initial_corpus_missing_file_is_not_found() {
    let mut b = EphemeralService::new();
    b.set_active_corpus_name("gone.txt").unwrap();
    let e = b.get_initial_corpus("bundled").unwrap_err();
    assert_eq!(e, StoreError::NotFound);
}

#[test]
fn upload_decodes_bytes_leniently() {
    let mut b = EphemeralService::new();
    b.upload_file("bin", &[0x68, 0x69, 0xFF]).unwrap();
    let text = b.get_file_contents("bin").unwrap();
    assert!(text.starts_with("hi"));
}
