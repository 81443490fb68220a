//! The two storage capabilities and the facade derived from them.
//!
//! Any backend offers [`FileStorage`] (list, upload and read named blobs) and
//! [`Database`] (read and write the [`Settings`] record). [`Backend`] is
//! derived from the pair and resolves the active corpus to its text.
//!
//! Each capability carries a model of the state it governs, together with a
//! flag saying whether that model is the truth: for an in-memory backend the
//! type itself holds every blob and the flag is true, while for a backend
//! whose state lives outside the process (on disk, over the network) the flag
//! is false and the contracts promise only what holds of every outcome.

use vstd::prelude::*;

use crate::selector::CorpusType;
use crate::selector::SelectorView;
use crate::selector::Settings;
use crate::selector::SettingsView;
use crate::selector::default_settings;
use crate::selector::display_of;
use crate::selector::parse_of;
use crate::textops::lossy_utf8;

verus! {

/// The error taxonomy of the storage capabilities.
#[derive(Clone, Copy, PartialEq, Eq, Structural, Debug)]
pub enum StoreError {
    /// A named blob is absent.
    NotFound,
    /// An I/O, network or serialization failure on a capability operation.
    Storage,
    /// An adapter cannot be constructed; fatal, not retried.
    Configuration,
}

/// The settings in force given what the store holds: the stored record, or
/// the default where none is.
pub open spec fn settings_or_default(o: Option<SettingsView>) -> SettingsView {
    match o {
        Some(v) => v,
        None => default_settings(),
    }
}

/// The model of a backend's state, shared by both capabilities so that each
/// can say what it leaves untouched of the other's half.
pub trait StoreModel {
    /// Whether the type itself holds the stored blobs, so that
    /// [`StoreModel::files`] is their true model. Unless a backend says
    /// otherwise, nothing is claimed.
    open spec fn files_known(&self) -> bool {
        false
    }

    /// The stored blobs, name to text.
    open spec fn files(&self) -> Map<Seq<char>, Seq<char>> {
        Map::empty()
    }

    /// Whether the type itself holds the settings record, so that
    /// [`StoreModel::stored_settings`] is its true model. Unless a backend
    /// says otherwise, nothing is claimed.
    open spec fn settings_known(&self) -> bool {
        false
    }

    /// The stored settings record, absent where none was ever written.
    open spec fn stored_settings(&self) -> Option<SettingsView> {
        None
    }
}

/// Listing, uploading and reading named blobs of text.
pub trait FileStorage: StoreModel {
    /// Every stored blob's name, in backend-defined order.
    fn list_files(&self) -> (r: Result<Vec<String>, StoreError>)
        ensures
            self.files_known() ==> (r matches Ok(names)
                && names@.map_values(|n: String| n@).to_set() == self.files().dom()
                && (forall|i: int, j: int|
                    0 <= i < j < names@.len() ==> names@[i]@ != names@[j]@)
            ),
    ;

    /// Write `data` under `name`, overwriting any blob of that name, and
    /// return the name stored under. The settings record is not touched.
    fn upload_file(&mut self, name: &str, data: &[u8]) -> (r: Result<String, StoreError>)
        ensures
            final(self).settings_known() == old(self).settings_known(),
            final(self).stored_settings() == old(self).stored_settings(),
            old(self).files_known() ==> ({
                &&& final(self).files_known()
                &&& (r matches Ok(stored) && stored@ == name@)
                &&& final(self).files() == old(self).files().insert(name@, lossy_utf8(data@))
            }),
    ;

    /// Read the named blob as text.
    fn get_file_contents(&self, name: &str) -> (r: Result<String, StoreError>)
        ensures
            self.files_known() ==> (match r {
                Ok(text) => self.files().contains_key(name@) && text@ == self.files()[name@],
                Err(e) => e == StoreError::NotFound && !self.files().contains_key(name@),
            }),
    ;
}

/// Reading and writing the settings record.
pub trait Database: StoreModel {
    /// Attempt to load the settings record. Every failure mode (missing
    /// record, malformed data, I/O) collapses to `None`; this never fails
    /// with an error, so that the self-healing path of
    /// [`Database::get_settings`] is reachable from any corrupt state.
    fn try_get_settings(&self) -> (r: Option<Settings>)
        ensures
            self.settings_known() ==> (match r {
                Some(s) => self.stored_settings() == Some(s@),
                None => self.stored_settings() is None,
            }),
    ;

    /// Persist the record, fully replacing any prior value. The stored
    /// blobs are not touched.
    fn write_settings(&mut self, settings: &Settings) -> (r: Result<(), StoreError>)
        ensures
            final(self).files_known() == old(self).files_known(),
            final(self).files() == old(self).files(),
            old(self).settings_known() ==> ({
                &&& final(self).settings_known()
                &&& r is Ok
                &&& final(self).stored_settings() == Some(settings@)
            }),
    ;

    /// Self-healing read: loads the record, and where none can be loaded,
    /// writes and returns the default, so that a first-ever call on an empty
    /// or corrupted store succeeds and leaves the store valid.
    fn get_settings(&mut self) -> (r: Result<Settings, StoreError>)
        ensures
            final(self).files_known() == old(self).files_known(),
            final(self).files() == old(self).files(),
            old(self).settings_known() ==> ({
                &&& final(self).settings_known()
                &&& (r matches Ok(s) && s@ == settings_or_default(old(self).stored_settings())
                    && final(self).stored_settings() == Some(s@))
            }),
    {
        match self.try_get_settings() {
            Some(settings) => Ok(settings),
            None => {
                let settings = Settings::new();
                match self.write_settings(&settings) {
                    Ok(()) => Ok(settings),
                    Err(e) => Err(e),
                }
            },
        }
    }

    /// The active corpus in its display form.
    fn get_active_corpus_name(&mut self) -> (r: Result<String, StoreError>)
        ensures
            final(self).files_known() == old(self).files_known(),
            final(self).files() == old(self).files(),
            old(self).settings_known() ==> ({
                &&& final(self).settings_known()
                &&& (r matches Ok(name) && name@ == display_of(
                    settings_or_default(old(self).stored_settings()).active_corpus,
                ))
                &&& final(self).stored_settings() == Some(
                    settings_or_default(old(self).stored_settings()),
                )
            }),
    {
        match self.get_settings() {
            Ok(settings) => Ok(settings.active_corpus.display()),
            Err(e) => Err(e),
        }
    }

    /// Replace the active corpus with the parse of `name`, persist, and
    /// return the new name in display form. Last writer wins.
    fn set_active_corpus_name(&mut self, name: &str) -> (r: Result<String, StoreError>)
        ensures
            final(self).files_known() == old(self).files_known(),
            final(self).files() == old(self).files(),
            old(self).settings_known() ==> ({
                &&& final(self).settings_known()
                &&& (r matches Ok(stored) && stored@ == name@)
                &&& final(self).stored_settings() == Some(
                    SettingsView { active_corpus: parse_of(name@) },
                )
            }),
    {
        match self.get_settings() {
            Ok(mut settings) => {
                settings.active_corpus = CorpusType::parse(name);
                match self.write_settings(&settings) {
                    Ok(()) => Ok(settings.active_corpus.display()),
                    Err(e) => Err(e),
                }
            },
            Err(e) => Err(e),
        }
    }
}

/// The facade every pair of capabilities provides: resolve the current
/// settings to corpus text.
pub trait Backend: FileStorage + Database + Send + Sync + 'static {
    /// The corpus text that persisted state alone selects: the bundled text
    /// where the default corpus is active, else the contents of the named
    /// file. The single resolution point used at startup and on recovery.
    fn get_initial_corpus(&mut self, bundled: &str) -> (r: Result<String, StoreError>)
        ensures
            final(self).files_known() == old(self).files_known(),
            final(self).files() == old(self).files(),
            old(self).settings_known() ==> ({
                &&& final(self).settings_known()
                &&& final(self).stored_settings() == Some(
                    settings_or_default(old(self).stored_settings()),
                )
                &&& (match settings_or_default(old(self).stored_settings()).active_corpus {
                    SelectorView::Default => r matches Ok(text) && text@ == bundled@,
                    SelectorView::FromFile { path } => old(self).files_known() ==> (match r {
                        Ok(text) => old(self).files().contains_key(path)
                            && text@ == old(self).files()[path],
                        Err(e) => e == StoreError::NotFound
                            && !old(self).files().contains_key(path),
                    }),
                })
            }),
    {
        let loaded = self.try_get_settings();
        let settings = match loaded {
            Some(settings) => settings,
            None => {
                let settings = Settings::new();
                match self.write_settings(&settings) {
                    Ok(()) => settings,
                    Err(e) => {
                        return Err(e);
                    },
                }
            },
        };
        match settings.active_corpus {
            CorpusType::Default => Ok(bundled.to_owned()),
            CorpusType::FromFile { path } => self.get_file_contents(path.as_str()),
        }
    }
}

impl<T: FileStorage + Database + Send + Sync + 'static> Backend for T {
}

} // verus!
