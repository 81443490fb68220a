//! The filesystem-backed adapter's path logic.
//!
//! The adapter keeps blobs in a per-user data directory and the settings
//! record in a single file inside a config directory. Where those
//! directories lie, and every touch of the disk, is the caller's concern;
//! what is decided here, and proved, is how names resolve to paths and how
//! the settings file's content is read and written, through the wire form
//! of [`crate::codec`].

use vstd::prelude::*;

use crate::codec::settings_json_of;
use crate::codec::settings_of_json;
use crate::codec::settings_from_json;
use crate::codec::settings_to_json;
use crate::selector::Settings;

verus! {

/// The file name of the settings record inside the config directory.
pub open spec fn db_file_name() -> Seq<char> {
    "/db.json"@
}

/// Where a name resolves: an absolute path is taken as it stands, any
/// other name is looked up under the data directory.
pub open spec fn resolved_path(data_dir: Seq<char>, path: Seq<char>) -> Seq<char> {
    if path.len() > 0 && path[0] == '/' {
        path
    } else {
        data_dir + "/"@ + path
    }
}

/// An absolute path resolves to itself, whatever the data directory: a
/// read through it bypasses the adapter's namespace entirely. A relative
/// name never does: it lands under the data directory.
pub proof fn law_absolute_path_bypass(data_dir: Seq<char>, path: Seq<char>)
    ensures
        path.len() > 0 && path[0] == '/' ==> resolved_path(data_dir, path) == path,
        !(path.len() > 0 && path[0] == '/') ==> resolved_path(data_dir, path) == data_dir + "/"@
            + path,
{
}

/// The filesystem-backed adapter: its two directories. Creating them, and
/// every read or write under them, stays with the caller.
pub struct LocalService {
    /// The directory holding one file per stored blob.
    pub data_dir: String,
    /// The directory holding the settings file.
    pub config_dir: String,
}

impl LocalService {
    /// An adapter over the two given directories.
    pub fn from_dirs(data_dir: String, config_dir: String) -> (r: Self)
        ensures
            r.data_dir@ == data_dir@,
            r.config_dir@ == config_dir@,
    {
        LocalService { data_dir, config_dir }
    }

    /// The path of the settings file.
    pub fn db_file_path(&self) -> (r: String)
        ensures
            r@ == self.config_dir@ + db_file_name(),
    {
        self.config_dir.clone().concat("/db.json")
    }

    /// The path a name resolves to: an absolute path is read directly,
    /// bypassing the data directory; a relative name is joined to it.
    pub fn get_fully_qualified_path(&self, path: &str) -> (r: String)
        ensures
            r@ == resolved_path(self.data_dir@, path@),
    {
        let is_absolute = path.unicode_len() > 0 && path.get_char(0) == '/';
        if is_absolute {
            path.to_owned()
        } else {
            self.data_dir.clone().concat("/").concat(path)
        }
    }

    /// The path a fresh upload is written to: always under the data
    /// directory, whatever the name.
    pub fn upload_path(&self, name: &str) -> (r: String)
        ensures
            r@ == self.data_dir@ + "/"@ + name@,
    {
        self.data_dir.clone().concat("/").concat(name)
    }

    /// The settings record encoded in the settings file's text, if any:
    /// what [`settings_of_json`] accepts.
    pub fn settings_of_file_text(&self, text: &str) -> (r: Option<Settings>)
        ensures
            match r {
                Some(settings) => settings_of_json(text@) == Some(settings@),
                None => settings_of_json(text@) is None,
            },
    {
        settings_from_json(text)
    }

    /// The text to persist for a settings record.
    pub fn file_text_of_settings(&self, settings: &Settings) -> (r: String)
        ensures
            r@ == settings_json_of(settings@),
    {
        settings_to_json(settings)
    }
}

} // verus!
