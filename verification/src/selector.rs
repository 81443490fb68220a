//! The corpus selector and the settings record that persists it.

use vstd::prelude::*;

verus! {

/// Which corpus is active: the bundled default text, or a named file held in
/// storage.
pub enum CorpusType {
    Default,
    FromFile { path: String },
}

/// Mathematical model of a [`CorpusType`]: the path as a sequence of
/// characters.
pub enum SelectorView {
    Default,
    FromFile { path: Seq<char> },
}

impl View for CorpusType {
    type V = SelectorView;

    open spec fn view(&self) -> SelectorView {
        match self {
            CorpusType::Default => SelectorView::Default,
            CorpusType::FromFile { path } => SelectorView::FromFile { path: path@ },
        }
    }
}

/// The display form of a selector: `Default` renders as the literal string
/// `"Default"`, a file selector as its path.
pub open spec fn display_of(v: SelectorView) -> Seq<char> {
    match v {
        SelectorView::Default => "Default"@,
        SelectorView::FromFile { path } => path,
    }
}

/// The parse of a string: the literal `"Default"` yields the default
/// selector, any other string names a file. Parsing never fails.
pub open spec fn parse_of(s: Seq<char>) -> SelectorView {
    if s == "Default"@ {
        SelectorView::Default
    } else {
        SelectorView::FromFile { path: s }
    }
}

/// Character-by-character string equality.
pub fn str_eq(a: &str, b: &str) -> (r: bool)
    ensures
        r == (a@ == b@),
{
    let a_len = a.unicode_len();
    let b_len = b.unicode_len();
    if a_len != b_len {
        assert(a@ != b@);
        return false;
    }
    let mut i: usize = 0;
    while i < a_len
        invariant
            a_len == a@.len(),
            b_len == b@.len(),
            a_len == b_len,
            i <= a_len,
            forall|j: int| 0 <= j < i ==> a@[j] == b@[j],
        decreases a_len - i,
    {
        if a.get_char(i) != b.get_char(i) {
            assert(a@ != b@);
            return false;
        }
        i = i + 1;
    }
    proof {
        assert(a@ =~= b@);
    }
    true
}

impl Clone for CorpusType {
    /// An exact copy.
    fn clone(&self) -> (r: Self)
        ensures
            r@ == self@,
    {
        match self {
            CorpusType::Default => CorpusType::Default,
            CorpusType::FromFile { path } => CorpusType::FromFile { path: path.clone() },
        }
    }
}

impl CorpusType {
    /// Parse a selector from a string; the inverse of [`CorpusType::display`].
    pub fn parse(s: &str) -> (r: CorpusType)
        ensures
            r@ == parse_of(s@),
    {
        if str_eq(s, "Default") {
            CorpusType::Default
        } else {
            CorpusType::FromFile { path: s.to_owned() }
        }
    }

    /// Render the selector in its display form.
    pub fn display(&self) -> (r: String)
        ensures
            r@ == display_of(self@),
    {
        match self {
            CorpusType::Default => "Default".to_owned(),
            CorpusType::FromFile { path } => path.clone(),
        }
    }
}

/// Every string other than the literal `"Default"` parses to a file selector
/// holding exactly that string, and displaying that selector gives the string
/// back.
pub proof fn law_parse_display(s: Seq<char>)
    requires
        s != "Default"@,
    ensures
        parse_of(s) == (SelectorView::FromFile { path: s }),
        display_of(SelectorView::FromFile { path: s }) == s,
{
}

/// Displaying the parse of any string gives the string back: the
/// string-to-selector direction loses nothing.
pub proof fn law_display_parse(s: Seq<char>)
    ensures
        display_of(parse_of(s)) == s,
{
}

/// The literal `"Default"` parses to the default selector, and displaying
/// that parse gives the literal back.
pub proof fn law_default_round_trip()
    ensures
        parse_of("Default"@) == SelectorView::Default,
        display_of(parse_of("Default"@)) == "Default"@,
{
}

/// The persisted record of which corpus is active. Exactly one such record
/// exists per deployment.
pub struct Settings {
    pub active_corpus: CorpusType,
}

/// Mathematical model of a [`Settings`] record.
pub struct SettingsView {
    pub active_corpus: SelectorView,
}

impl View for Settings {
    type V = SettingsView;

    open spec fn view(&self) -> SettingsView {
        SettingsView { active_corpus: self.active_corpus@ }
    }
}

/// The settings value used when no valid record can be loaded.
pub open spec fn default_settings() -> SettingsView {
    SettingsView { active_corpus: SelectorView::Default }
}

impl Settings {
    /// A fresh record with the default corpus active.
    pub fn new() -> (r: Self)
        ensures
            r@ == default_settings(),
    {
        Settings { active_corpus: CorpusType::Default }
    }
}

impl Clone for Settings {
    /// An exact copy.
    fn clone(&self) -> (r: Self)
        ensures
            r@ == self@,
    {
        Settings { active_corpus: self.active_corpus.clone() }
    }
}

impl Default for Settings {
    /// Same as [`Settings::new`].
    fn default() -> (r: Self)
        ensures
            r@ == default_settings(),
    {
        Settings::new()
    }
}

} // verus!
