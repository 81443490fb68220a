//! The in-memory backend, for demos and tests.
//!
//! The store is an explicitly owned value passed in at startup: two maps,
//! one for blobs and one for the single settings record. Nothing survives
//! the process.

use vstd::hash_map::StringHashMap;
use vstd::prelude::*;

use crate::backend::Database;
use crate::backend::FileStorage;
use crate::backend::StoreError;
use crate::backend::StoreModel;
use crate::selector::Settings;
use crate::selector::SettingsView;
use crate::textops::utf8_lossy;

verus! {

/// A process-memory backend: blobs in a hash map keyed by name, the
/// settings record beside it.
pub struct EphemeralService {
    /// Blob name to text.
    pub files: StringHashMap<String>,
    /// The blob names in insertion order; tracks the keys of `files`.
    pub names: Vec<String>,
    /// The settings record, absent until first written.
    pub settings: Option<Settings>,
}

impl EphemeralService {
    /// The name list carries each key of the blob map exactly once.
    pub open spec fn names_ok(&self) -> bool {
        &&& self.names@.map_values(|n: String| n@).to_set() == self.files@.dom()
        &&& forall|i: int, j: int|
            0 <= i < j < self.names@.len() ==> self.names@[i]@ != self.names@[j]@
    }

    /// An empty store.
    pub fn new() -> (r: Self)
        ensures
            r.files_known(),
            r.settings_known(),
            r.files() == Map::<Seq<char>, Seq<char>>::empty(),
            r.stored_settings() is None,
    {
        let r = EphemeralService { files: StringHashMap::new(), names: Vec::new(), settings: None };
        proof {
            assert(r.names@.map_values(|n: String| n@).to_set() =~= r.files@.dom());
        }
        r
    }
}

impl Default for EphemeralService {
    /// Same as [`EphemeralService::new`].
    fn default() -> (r: Self)
        ensures
            r.files_known(),
            r.settings_known(),
            r.files() == Map::<Seq<char>, Seq<char>>::empty(),
            r.stored_settings() is None,
    {
        EphemeralService::new()
    }
}

impl StoreModel for EphemeralService {
    open spec fn files_known(&self) -> bool {
        self.names_ok()
    }

    open spec fn files(&self) -> Map<Seq<char>, Seq<char>> {
        self.files@.map_values(|t: String| t@)
    }

    open spec fn settings_known(&self) -> bool {
        true
    }

    open spec fn stored_settings(&self) -> Option<SettingsView> {
        match self.settings {
            Some(s) => Some(s@),
            None => None,
        }
    }
}

impl FileStorage for EphemeralService {
    /// The blob names, in insertion order. Never fails: there is no I/O to
    /// fail.
    fn list_files(&self) -> (r: Result<Vec<String>, StoreError>)
        ensures
            r matches Ok(names) && names@.map_values(|n: String| n@) == self.names@.map_values(
                |n: String| n@,
            ),
    {
        let mut names: Vec<String> = Vec::new();
        let mut i: usize = 0;
        while i < self.names.len()
            invariant
                i <= self.names@.len(),
                names@.len() == i,
                forall|j: int| 0 <= j < i ==> names@[j]@ == self.names@[j]@,
            decreases self.names@.len() - i,
        {
            names.push(self.names[i].clone());
            i = i + 1;
        }
        proof {
            assert(names@.map_values(|n: String| n@) =~= self.names@.map_values(|n: String| n@));
            if self.files_known() {
                assert(names@.map_values(|n: String| n@).to_set() =~= self.files().dom());
            }
        }
        Ok(names)
    }

    /// Insert or overwrite; never fails: there is no I/O to fail. The bytes
    /// are decoded to text leniently.
    fn upload_file(&mut self, name: &str, data: &[u8]) -> (r: Result<String, StoreError>)
        ensures
            r matches Ok(stored) && stored@ == name@,
    {
        let text = utf8_lossy(data);
        let already = self.files.contains_key(name);
        if !already {
            self.names.push(name.to_owned());
        }
        self.files.insert(name.to_owned(), text);
        proof {
            if old(self).files_known() {
                let nv = |n: String| n@;
                let old_seq = old(self).names@.map_values(nv);
                let new_seq = self.names@.map_values(nv);
                let old_dom = old(self).files@.dom();
                if already {
                    assert(new_seq =~= old_seq);
                    assert(old_dom.insert(name@) =~= old_dom);
                } else {
                    assert(new_seq =~= old_seq.push(name@));
                    assert(!old_seq.contains(name@)) by {
                        if old_seq.contains(name@) {
                            assert(old_seq.to_set().contains(name@));
                        }
                    }
                    assert(new_seq.to_set() =~= old_dom.insert(name@)) by {
                        assert forall|a: Seq<char>|
                            new_seq.to_set().contains(a) implies old_dom.insert(name@).contains(
                            a,
                        ) by {
                            let i = choose|i: int|
                                0 <= i < new_seq.len() && new_seq[i] == a;
                            if i < old_seq.len() {
                                assert(old_seq.contains(a));
                                assert(old_seq.to_set().contains(a));
                            }
                        }
                        assert forall|a: Seq<char>|
                            old_dom.insert(name@).contains(a) implies new_seq.to_set().contains(
                            a,
                        ) by {
                            if a == name@ {
                                assert(new_seq[old_seq.len() as int] == a);
                                assert(new_seq.contains(a));
                            } else {
                                assert(old_seq.to_set().contains(a));
                                let i = choose|i: int|
                                    0 <= i < old_seq.len() && old_seq[i] == a;
                                assert(new_seq[i] == a);
                                assert(new_seq.contains(a));
                            }
                        }
                    }
                    assert forall|i: int, j: int|
                        0 <= i < j < self.names@.len() implies self.names@[i]@
                        != self.names@[j]@ by {
                        if j + 1 < self.names@.len() {
                            assert(old(self).names@[i]@ != old(self).names@[j]@);
                        } else {
                            assert(self.names@[j]@ == name@);
                            assert(old_seq[i] == self.names@[i]@);
                            assert(old_seq.contains(old_seq[i]));
                        }
                    }
                }
                assert(self.names@.map_values(nv).to_set() =~= self.files@.dom());
                assert(self.files() =~= old(self).files().insert(
                    name@,
                    crate::textops::lossy_utf8(data@),
                ));
            }
        }
        Ok(name.to_owned())
    }

    fn get_file_contents(&self, name: &str) -> (r: Result<String, StoreError>)
        ensures
            self.files@.contains_key(name@) ==> (r matches Ok(text) && text@
                == self.files()[name@]),
    {
        match self.files.get(name) {
            Some(text) => Ok(text.clone()),
            None => Err(StoreError::NotFound),
        }
    }
}

impl Database for EphemeralService {
    fn try_get_settings(&self) -> (r: Option<Settings>) {
        match &self.settings {
            Some(settings) => Some(settings.clone()),
            None => None,
        }
    }

    /// Never fails: there is no I/O to fail.
    fn write_settings(&mut self, settings: &Settings) -> (r: Result<(), StoreError>)
        ensures
            r is Ok,
    {
        self.settings = Some(settings.clone());
        Ok(())
    }
}

} // verus!
