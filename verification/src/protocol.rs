//! The corpus switch protocol and corpus listing.
//!
//! A switch rebuilds the generation model from the new text and then
//! persists the new active-corpus name. The steps are deliberately not
//! transactional: a failure of a later step leaves the effects of earlier
//! steps in place, and the contracts here say so.

use vstd::prelude::*;

use crate::backend::Backend;
use crate::backend::Database;
use crate::backend::FileStorage;
use crate::backend::StoreError;
use crate::backend::settings_or_default;
use crate::chain::TextChain;
use crate::chain::chain_lines;
use crate::chain::fed_lines;
use crate::chain::get_chain_from_text;
use crate::selector::SelectorView;
use crate::selector::SettingsView;
use crate::selector::parse_of;
use crate::textops::lossy_utf8;
use crate::textops::utf8_lossy;

verus! {

/// Rebuild the generation model from `text`, swap it in, and persist
/// `corpus_name` as the active corpus. The model is replaced whether or not
/// persisting succeeds.
pub fn replace_chain<B: Database>(
    backend: &mut B,
    chain: &mut TextChain,
    corpus_name: &str,
    text: &str,
) -> (r: Result<String, StoreError>)
    ensures
        chain_lines(*final(chain)) == fed_lines(text@),
        final(backend).files_known() == old(backend).files_known(),
        final(backend).files() == old(backend).files(),
        old(backend).settings_known() ==> ({
            &&& final(backend).settings_known()
            &&& (r matches Ok(stored) && stored@ == corpus_name@)
            &&& final(backend).stored_settings() == Some(
                SettingsView { active_corpus: parse_of(corpus_name@) },
            )
        }),
{
    let fresh = get_chain_from_text(text);
    *chain = fresh;
    backend.set_active_corpus_name(corpus_name)
}

/// Upload a corpus and switch to it: store the bytes under `name`, rebuild
/// the model from their text, and persist `name` as active. Not
/// transactional: where persisting fails, the blob stays stored and the
/// model stays replaced.
pub fn upload_and_switch<B: FileStorage + Database>(
    backend: &mut B,
    chain: &mut TextChain,
    name: &str,
    data: &[u8],
) -> (r: Result<String, StoreError>)
    ensures
        chain_lines(*final(chain)) == chain_lines(*old(chain)) || chain_lines(*final(chain))
            == fed_lines(lossy_utf8(data@)),
        old(backend).files_known() ==> ({
            &&& final(backend).files_known()
            &&& final(backend).files() == old(backend).files().insert(name@, lossy_utf8(data@))
            &&& chain_lines(*final(chain)) == fed_lines(lossy_utf8(data@))
        }),
        old(backend).files_known() && old(backend).settings_known() ==> ({
            &&& (r matches Ok(stored) && stored@ == name@)
            &&& final(backend).settings_known()
            &&& final(backend).stored_settings() == Some(
                SettingsView { active_corpus: parse_of(name@) },
            )
        }),
        old(backend).settings_known() && r is Err ==> ({
            &&& *final(chain) == *old(chain)
            &&& final(backend).stored_settings() == old(backend).stored_settings()
        }),
{
    let stored = match backend.upload_file(name, data) {
        Ok(stored) => stored,
        Err(e) => {
            return Err(e);
        },
    };
    let text = utf8_lossy(data);
    replace_chain(backend, chain, stored.as_str(), text.as_str())
}

/// Switch to a corpus already in storage: read the named file, rebuild the
/// model from its text, and persist the name as active. Not transactional:
/// where persisting fails, the model stays replaced.
pub fn choose_and_switch<B: FileStorage + Database>(
    backend: &mut B,
    chain: &mut TextChain,
    corpus_name: &str,
) -> (r: Result<String, StoreError>)
    ensures
        final(backend).files_known() == old(backend).files_known(),
        final(backend).files() == old(backend).files(),
        old(backend).files_known() ==> ({
            if old(backend).files().contains_key(corpus_name@) {
                &&& chain_lines(*final(chain)) == fed_lines(old(backend).files()[corpus_name@])
                &&& old(backend).settings_known() ==> ({
                    &&& (r matches Ok(stored) && stored@ == corpus_name@)
                    &&& final(backend).settings_known()
                    &&& final(backend).stored_settings() == Some(
                        SettingsView { active_corpus: parse_of(corpus_name@) },
                    )
                })
            } else {
                &&& (r matches Err(e) && e == StoreError::NotFound)
                &&& *final(chain) == *old(chain)
                &&& final(backend).settings_known() == old(backend).settings_known()
                &&& final(backend).stored_settings() == old(backend).stored_settings()
            }
        }),
{
    let text = match backend.get_file_contents(corpus_name) {
        Ok(text) => text,
        Err(e) => {
            return Err(e);
        },
    };
    replace_chain(backend, chain, corpus_name, text.as_str())
}

/// The model a process starts with: the active corpus resolved from
/// persisted state alone, and a chain built from its text — the bundled
/// text where the default corpus is active, else the named file's
/// contents.
pub fn initial_chain<B: Backend>(backend: &mut B, bundled: &str) -> (r: Result<
    TextChain,
    StoreError,
>)
    ensures
        final(backend).files_known() == old(backend).files_known(),
        final(backend).files() == old(backend).files(),
        old(backend).settings_known() ==> ({
            &&& final(backend).settings_known()
            &&& (match settings_or_default(old(backend).stored_settings()).active_corpus {
                SelectorView::Default => (r matches Ok(chain) && chain_lines(chain) == fed_lines(
                    bundled@,
                )),
                SelectorView::FromFile { path } => old(backend).files_known() ==> (match r {
                    Ok(chain) => old(backend).files().contains_key(path) && chain_lines(chain)
                        == fed_lines(old(backend).files()[path]),
                    Err(e) => e == StoreError::NotFound && !old(backend).files().contains_key(
                        path,
                    ),
                }),
            })
        }),
{
    let text = match backend.get_initial_corpus(bundled) {
        Ok(text) => text,
        Err(e) => {
            return Err(e);
        },
    };
    Ok(get_chain_from_text(text.as_str()))
}

/// One corpus in a listing, marked active where its name is the active one.
pub struct CorpusEntry {
    pub name: String,
    pub is_active: bool,
}

/// An entry carries the given name, and its mark says whether that name is
/// the active one.
pub open spec fn entry_matches(e: CorpusEntry, name: Seq<char>, active: Seq<char>) -> bool {
    e.name@ == name && e.is_active == (name == active)
}

/// A complete listing: the default corpus first, then each stored name
/// exactly once, in the order of `names`, every entry marked against the
/// active name.
pub open spec fn listing_of(
    entries: Seq<CorpusEntry>,
    names: Seq<Seq<char>>,
    stored: Set<Seq<char>>,
    active: Seq<char>,
) -> bool {
    &&& names.no_duplicates()
    &&& names.to_set() == stored
    &&& entries.len() == names.len() + 1
    &&& entry_matches(entries[0], "Default"@, active)
    &&& forall|i: int| 1 <= i < entries.len() ==> entry_matches(#[trigger] entries[i], names[i - 1], active)
}

/// The listing the caller sees: the default corpus first, then every stored
/// file, each marked against the active name.
pub fn annotate_corpora(active: &str, files: Vec<String>) -> (r: Vec<CorpusEntry>)
    ensures
        r@.len() == files@.len() + 1,
        entry_matches(r@[0], "Default"@, active@),
        forall|i: int|
            1 <= i < r@.len() ==> entry_matches(#[trigger] r@[i], files@[i - 1]@, active@),
{
    let mut r: Vec<CorpusEntry> = Vec::new();
    let first: String = "Default".to_owned();
    let first_active = crate::selector::str_eq(first.as_str(), active);
    r.push(CorpusEntry { name: first, is_active: first_active });
    let mut i: usize = 0;
    while i < files.len()
        invariant
            i <= files@.len(),
            r@.len() == i + 1,
            entry_matches(r@[0], "Default"@, active@),
            forall|j: int|
                1 <= j < r@.len() ==> entry_matches(#[trigger] r@[j], files@[j - 1]@, active@),
        decreases files@.len() - i,
    {
        let name = files[i].clone();
        let is_active = crate::selector::str_eq(name.as_str(), active);
        r.push(CorpusEntry { name, is_active });
        i = i + 1;
    }
    r
}

/// List every corpus the backend offers: the default one, then the stored
/// files, each marked against the active name. Reads the listing first, so
/// a self-healing settings write cannot disturb it.
pub fn list_corpora<B: FileStorage + Database>(backend: &mut B) -> (r: Result<
    Vec<CorpusEntry>,
    StoreError,
>)
    ensures
        old(backend).files_known() && old(backend).settings_known() ==> ({
            let active = crate::selector::display_of(
                settings_or_default(old(backend).stored_settings()).active_corpus,
            );
            &&& final(backend).settings_known()
            &&& final(backend).stored_settings() == Some(
                settings_or_default(old(backend).stored_settings()),
            )
            &&& (r matches Ok(entries) && {
                &&& entries@.len() == old(backend).files().dom().len() + 1
                &&& exists|names: Seq<Seq<char>>|
                    listing_of(entries@, names, old(backend).files().dom(), active)
            })
        }),
{
    let files = match backend.list_files() {
        Ok(files) => files,
        Err(e) => {
            return Err(e);
        },
    };
    let active = match backend.get_active_corpus_name() {
        Ok(active) => active,
        Err(e) => {
            return Err(e);
        },
    };
    let ghost views = files@.map_values(|n: String| n@);
    proof {
        if old(backend).files_known() {
            assert(views.no_duplicates());
            views.unique_seq_to_set();
        }
    }
    let entries = annotate_corpora(active.as_str(), files);
    proof {
        if old(backend).files_known() {
            assert(listing_of(entries@, views, old(backend).files().dom(), active@));
        }
    }
    Ok(entries)
}

} // verus!
