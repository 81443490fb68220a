use chabbo::chain::fallback_reply;
use chabbo::chain::generate_reply;
use chabbo::chain::get_chain_from_text;
use chabbo::chain::try_generate_reply;
use chabbo::ephemeral::EphemeralService;
use chabbo::lines::split_lines;
use chabbo::protocol::annotate_corpora;
use chabbo::protocol::choose_and_switch;
use chabbo::protocol::initial_chain;
use chabbo::protocol::list_corpora;
use chabbo::protocol::replace_chain;
use chabbo::protocol::upload_and_switch;
use chabbo::Database;
use chabbo::FileStorage;

#[test]
fn split_lines_matches_line_semantics() {
    let lines = split_lines("a\nb\nc");
    assert_eq!(lines, vec!["a", "b", "c"]);
    assert_eq!(split_lines(""), Vec::<String>::new());
    assert_eq!(split_lines("a\n"), vec!["a"]);
    assert_eq!(split_lines("a\r\nb"), vec!["a", "b"]);
    assert_eq!(split_lines("\n"), vec![""]);
    assert_eq!(split_lines("a\n\nb"), vec!["a", "", "b"]);
}

#[test]
fn single_line_corpus_generates_itself() {
    let chain = get_chain_from_text("the cat sat");
    assert_eq!(generate_reply(&chain, "the"), "the cat sat");
}

#[test]
fn corpus_is_lowercased_before_feeding() {
    let chain = get_chain_from_text("The Cat Sat");
    assert_eq!(generate_reply(&chain, "THE"), "the cat sat");
}

#[test]
fn unseeded_generation_yields_a_fed_line() {
    let chain = get_chain_from_text("the cat sat");
    assert_eq!(generate_reply(&chain, ""), "the cat sat");
}

#[test]
fn unknown_seed_names_the_input() {
    let chain = get_chain_from_text("the cat sat");
    assert_eq!(generate_reply(&chain, "XYZ"), "No string found for XYZ");
}

#[test]
fn fallback_substitutes_only_for_empty_draws() {
    assert_eq!(fallback_reply("the cat sat", "the"), "the cat sat");
    assert_eq!(fallback_reply("", "the"), "No string found for the");
    assert_eq!(fallback_reply("", ""), "No string found for ");
}

#[test]
fn unseeded_request_on_unfed_model_is_refused() {
    let unfed = get_chain_from_text("");
    assert!(try_generate_reply(&unfed, "").is_none());
    assert_eq!(try_generate_reply(&unfed, "x").unwrap(), "No string found for x");
    let fed = get_chain_from_text("the cat sat");
    assert_eq!(try_generate_reply(&fed, "").unwrap(), "the cat sat");
}

#[test]
fn switch_protocol_scenario() {
    let mut backend = EphemeralService::new();
    let mut chain = get_chain_from_text("starter text");
    assert_eq!(backend.get_active_corpus_name().unwrap(), "Default");

    let stored = upload_and_switch(&mut backend, &mut chain, "gray.txt", b"the cat sat").unwrap();
    assert_eq!(stored, "gray.txt");
    assert!(backend.list_files().unwrap().contains(&"gray.txt".to_string()));
    assert_eq!(backend.get_active_corpus_name().unwrap(), "gray.txt");
    assert_eq!(generate_reply(&chain, "the"), "the cat sat");
}

#[test]
fn choose_switches_to_a_stored_corpus() {
    let mut backend = EphemeralService::new();
    backend.upload_file("gray.txt", b"the cat sat").unwrap();
    let mut chain = get_chain_from_text("starter text");
    let name = choose_and_switch(&mut backend, &mut chain, "gray.txt").unwrap();
    assert_eq!(name, "gray.txt");
    assert_eq!(backend.get_active_corpus_name().unwrap(), "gray.txt");
    assert_eq!(generate_reply(&chain, "the"), "the cat sat");
}

#[test]
fn choosing_a_missing_corpus_fails_and_changes_nothing() {
    let mut backend = EphemeralService::new();
    let mut chain = get_chain_from_text("the cat sat");
    let e = choose_and_switch(&mut backend, &mut chain, "gone.txt").unwrap_err();
    assert_eq!(e, chabbo::StoreError::NotFound);
    assert_eq!(backend.get_active_corpus_name().unwrap(), "Default");
    assert_eq!(generate_reply(&chain, "the"), "the cat sat");
}

#[test]
fn replace_chain_rebuilds_and_persists() {
    let mut backend = EphemeralService::new();
    let mut chain = get_chain_from_text("old text");
    let name = replace_chain(&mut backend, &mut chain, "new.txt", "the dog ran").unwrap();
    assert_eq!(name, "new.txt");
    assert_eq!(backend.get_active_corpus_name().unwrap(), "new.txt");
    assert_eq!(generate_reply(&chain, "the"), "the dog ran");
}

#[test]
fn startup_uses_bundled_text_by_default() {
    let mut backend = EphemeralService::new();
    let chain = initial_chain(&mut backend, "the cat sat").unwrap();
    assert_eq!(generate_reply(&chain, "the"), "the cat sat");
}

#[test]
fn startup_uses_the_active_file() {
    let mut backend = EphemeralService::new();
    backend.upload_file("g.txt", b"the dog ran").unwrap();
    backend.set_active_corpus_name("g.txt").unwrap();
    let chain = initial_chain(&mut backend, "the cat sat").unwrap();
    assert_eq!(generate_reply(&chain, "the"), "the dog ran");
}

#[test]
fn annotate_marks_the_active_entry() {
    let entries = annotate_corpora("b.txt", vec!["a.txt".to_string(), "b.txt".to_string()]);
    assert_eq!(entries.len(), 3);
    assert_eq!(entries[0].name, "Default");
    assert!(!entries[0].is_active);
    assert_eq!(entries[1].name, "a.txt");
    assert!(!entries[1].is_active);
    assert_eq!(entries[2].name, "b.txt");
    assert!(entries[2].is_active);
}

#[test]
fn annotate_marks_default_when_active() {
    let entries = annotate_corpora("Default", vec!["a.txt".to_string()]);
    assert_eq!(entries.len(), 2);
    assert!(entries[0].is_active);
    assert!(!entries[1].is_active);
}

#[test]
fn listing_covers_default_and_files() {
    let mut backend = EphemeralService::new();
    backend.upload_file("a.txt", b"aaa").unwrap();
    backend.set_active_corpus_name("a.txt").unwrap();
    let entries = list_corpora(&mut backend).unwrap();
    assert_eq!(entries.len(), 2);
    assert_eq!(entries[0].name, "Default");
    assert!(!entries[0].is_active);
    assert_eq!(entries[1].name, "a.txt");
    assert!(entries[1].is_active);
}
