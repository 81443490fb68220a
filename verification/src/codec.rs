//! The wire form of the settings record.
//!
//! A settings record is persisted as a single JSON object
//! `{"active_corpus": <selector>}`, where the selector is either the string
//! tag `"Default"` or an object `{"FromFile":{"path":"<string>"}}` with the
//! path escaped. The parser accepts exactly what the writer produces and
//! yields nothing on anything else, so a corrupted record heals itself
//! through the default path of the settings capability.

use vstd::prelude::*;

use crate::selector::CorpusType;
use crate::selector::SelectorView;
use crate::selector::Settings;
use crate::selector::SettingsView;
use crate::selector::str_eq;
use crate::textops::chars_to_string;

verus! {

/// A path character in its escaped form: backslash and double quote get a
/// leading backslash, everything else stands for itself.
pub open spec fn esc_char(c: char) -> Seq<char> {
    if c == '\\' {
        seq!['\\', '\\']
    } else if c == '"' {
        seq!['\\', '"']
    } else {
        seq![c]
    }
}

/// A path in its escaped form.
pub open spec fn esc(s: Seq<char>) -> Seq<char>
    decreases s.len(),
{
    if s.len() == 0 {
        Seq::empty()
    } else {
        esc_char(s[0]) + esc(s.drop_first())
    }
}

/// Escaping one more character at the end escapes it alone.
pub proof fn lemma_esc_snoc(s: Seq<char>, c: char)
    ensures
        esc(s.push(c)) == esc(s) + esc_char(c),
    decreases s.len(),
{
    if s.len() == 0 {
        assert(s.push(c)[0] == c);
        assert(s.push(c).drop_first() =~= Seq::<char>::empty());
        assert(esc(Seq::<char>::empty()) =~= Seq::<char>::empty());
        assert(esc(s) =~= Seq::<char>::empty());
        assert(esc(s.push(c)) =~= esc(s) + esc_char(c));
    } else {
        assert(s.push(c)[0] == s[0]);
        assert(s.push(c).drop_first() =~= s.drop_first().push(c));
        lemma_esc_snoc(s.drop_first(), c);
        assert(esc(s.push(c)) == esc_char(s[0]) + esc(s.drop_first().push(c)));
        assert(esc_char(s[0]) + (esc(s.drop_first()) + esc_char(c)) =~= (esc_char(s[0]) + esc(
            s.drop_first(),
        )) + esc_char(c));
        assert(esc(s.push(c)) =~= esc(s) + esc_char(c));
    }
}

/// The unescape of an escaped form: the path it encodes, or nothing where
/// the form is not an escape of any path.
pub open spec fn unesc(s: Seq<char>) -> Option<Seq<char>>
    decreases s.len(),
{
    if s.len() == 0 {
        Some(Seq::empty())
    } else if s[0] == '\\' {
        if s.len() >= 2 && (s[1] == '\\' || s[1] == '"') {
            match unesc(s.skip(2)) {
                Some(t) => Some(seq![s[1]] + t),
                None => None,
            }
        } else {
            None
        }
    } else if s[0] == '"' {
        None
    } else {
        match unesc(s.skip(1)) {
            Some(t) => Some(seq![s[0]] + t),
            None => None,
        }
    }
}

/// Unescaping undoes escaping: every path comes back from its escaped form.
pub proof fn lemma_unesc_esc(p: Seq<char>)
    ensures
        unesc(esc(p)) == Some(p),
    decreases p.len(),
{
    if p.len() == 0 {
    } else {
        let e = esc(p);
        lemma_unesc_esc(p.drop_first());
        if p[0] == '\\' {
            assert(e.skip(2) =~= esc(p.drop_first()));
            assert(seq![e[1]] + p.drop_first() =~= p);
        } else if p[0] == '"' {
            assert(e.skip(2) =~= esc(p.drop_first()));
            assert(seq![e[1]] + p.drop_first() =~= p);
        } else {
            assert(e.skip(1) =~= esc(p.drop_first()));
            assert(seq![e[0]] + p.drop_first() =~= p);
        }
    }
}

/// The wire form of a record with the default corpus active.
pub open spec fn default_json() -> Seq<char> {
    "{\"active_corpus\":\"Default\"}"@
}

/// What stands before the escaped path in the wire form of a file selector.
pub open spec fn file_prefix() -> Seq<char> {
    "{\"active_corpus\":{\"FromFile\":{\"path\":\""@
}

/// What stands after the escaped path in the wire form of a file selector.
pub open spec fn file_suffix() -> Seq<char> {
    "\"}}}"@
}

/// The wire form of a settings record.
pub open spec fn settings_json_of(v: SettingsView) -> Seq<char> {
    match v.active_corpus {
        SelectorView::Default => default_json(),
        SelectorView::FromFile { path } => file_prefix() + esc(path) + file_suffix(),
    }
}

/// The parse of a wire form: the record it encodes, or nothing. The
/// default form is matched whole; a file form must carry the prefix, the
/// suffix, and a well-escaped path between them.
pub open spec fn settings_of_json(s: Seq<char>) -> Option<SettingsView> {
    if s == default_json() {
        Some(SettingsView { active_corpus: SelectorView::Default })
    } else if s.len() >= file_prefix().len() + file_suffix().len() && s.take(
        file_prefix().len() as int,
    ) == file_prefix() && s.skip(s.len() - file_suffix().len()) == file_suffix() {
        match unesc(s.subrange(file_prefix().len() as int, s.len() - file_suffix().len())) {
            Some(p) => Some(SettingsView { active_corpus: SelectorView::FromFile { path: p } }),
            None => None,
        }
    } else {
        None
    }
}

/// Append the characters of a string to a buffer.
fn push_str_chars(buf: &mut Vec<char>, s: &str)
    ensures
        final(buf)@ == old(buf)@ + s@,
{
    let n = s.unicode_len();
    let mut i: usize = 0;
    while i < n
        invariant
            n == s@.len(),
            i <= n,
            buf@ == old(buf)@ + s@.take(i as int),
        decreases n - i,
    {
        buf.push(s.get_char(i));
        proof {
            assert(buf@ =~= old(buf)@ + s@.take(i + 1 as int));
        }
        i = i + 1;
    }
    proof {
        assert(old(buf)@ + s@.take(n as int) =~= old(buf)@ + s@);
    }
}

/// Append the escaped form of a string to a buffer.
fn push_escaped(buf: &mut Vec<char>, s: &str)
    ensures
        final(buf)@ == old(buf)@ + esc(s@),
{
    let n = s.unicode_len();
    let mut i: usize = 0;
    proof {
        assert(s@.take(0) =~= Seq::<char>::empty());
    }
    while i < n
        invariant
            n == s@.len(),
            i <= n,
            buf@ == old(buf)@ + esc(s@.take(i as int)),
        decreases n - i,
    {
        let c = s.get_char(i);
        if c == '\\' || c == '"' {
            buf.push('\\');
        }
        buf.push(c);
        proof {
            lemma_esc_snoc(s@.take(i as int), c);
            assert(s@.take(i + 1 as int) =~= s@.take(i as int).push(c));
            assert(buf@ =~= old(buf)@ + esc(s@.take(i + 1 as int)));
        }
        i = i + 1;
    }
    proof {
        assert(s@.take(n as int) =~= s@);
    }
}

/// Serialize a settings record to its wire form.
pub fn settings_to_json(settings: &Settings) -> (r: String)
    ensures
        r@ == settings_json_of(settings@),
{
    match &settings.active_corpus {
        CorpusType::Default => "{\"active_corpus\":\"Default\"}".to_owned(),
        CorpusType::FromFile { path } => {
            let mut buf: Vec<char> = Vec::new();
            proof {
                assert(buf@ + file_prefix() =~= file_prefix());
            }
            push_str_chars(&mut buf, "{\"active_corpus\":{\"FromFile\":{\"path\":\"");
            push_escaped(&mut buf, path.as_str());
            push_str_chars(&mut buf, "\"}}}");
            proof {
                assert(buf@ =~= file_prefix() + esc(path@) + file_suffix());
            }
            chars_to_string(&buf)
        },
    }
}

/// Whether the characters of `s` from `at` on begin with `pat`.
pub(crate) fn matches_at(s: &str, at: usize, pat: &str) -> (r: bool)
    requires
        at + pat@.len() <= s@.len() <= usize::MAX,
    ensures
        r == (s@.subrange(at as int, at + pat@.len()) == pat@),
{
    let m = pat.unicode_len();
    let mut i: usize = 0;
    while i < m
        invariant
            m == pat@.len(),
            at + m <= s@.len() <= usize::MAX,
            i <= m,
            forall|j: int| 0 <= j < i ==> s@[at + j] == pat@[j],
        decreases m - i,
    {
        if s.get_char(at + i) != pat.get_char(i) {
            assert(s@.subrange(at as int, at + pat@.len())[i as int] != pat@[i as int]);
            return false;
        }
        i = i + 1;
    }
    proof {
        assert(s@.subrange(at as int, at + pat@.len()) =~= pat@);
    }
    true
}

/// Unescape the characters of `s` between `from` and `to`.
pub(crate) fn unescape_range(s: &str, from: usize, to: usize) -> (r: Option<Vec<char>>)
    requires
        from <= to <= s@.len(),
    ensures
        match r {
            Some(p) => unesc(s@.subrange(from as int, to as int)) == Some(p@),
            None => unesc(s@.subrange(from as int, to as int)) is None,
        },
{
    let ghost m = s@.subrange(from as int, to as int);
    let mut out: Vec<char> = Vec::new();
    let mut j: usize = from;
    proof {
        assert(m.skip(0) =~= m);
    }
    while j < to
        invariant
            from <= j <= to <= s@.len(),
            m == s@.subrange(from as int, to as int),
            unesc(m) == (match unesc(m.skip(j - from)) {
                Some(t) => Some(out@ + t),
                None => None,
            }),
        decreases to - j,
    {
        let ghost k = j - from;
        proof {
            assert(m.skip(k).len() == to - j);
            assert(m.skip(k)[0] == s@[j as int]);
        }
        let c = s.get_char(j);
        if c == '"' {
            return None;
        } else if c == '\\' {
            if j + 1 >= to {
                return None;
            }
            proof {
                assert(m.skip(k)[1] == s@[j + 1 as int]);
            }
            let c2 = s.get_char(j + 1);
            if c2 == '\\' || c2 == '"' {
                let ghost out_before = out@;
                out.push(c2);
                proof {
                    assert(m.skip(k).skip(2) =~= m.skip(k + 2));
                    if unesc(m.skip(k + 2)) is Some {
                        let t = unesc(m.skip(k + 2))->Some_0;
                        assert(out@ + t =~= out_before + (seq![c2] + t));
                    }
                }
                j = j + 2;
            } else {
                return None;
            }
        } else {
            let ghost out_before = out@;
            out.push(c);
            proof {
                assert(m.skip(k).skip(1) =~= m.skip(k + 1));
                if unesc(m.skip(k + 1)) is Some {
                    let t = unesc(m.skip(k + 1))->Some_0;
                    assert(out@ + t =~= out_before + (seq![c] + t));
                }
            }
            j = j + 1;
        }
    }
    proof {
        assert(m.skip(to - from) =~= Seq::<char>::empty());
        assert(out@ + Seq::<char>::empty() =~= out@);
    }
    Some(out)
}

/// Parse a settings record from its wire form; nothing on any other text.
pub fn settings_from_json(s: &str) -> (r: Option<Settings>)
    ensures
        match r {
            Some(settings) => settings_of_json(s@) == Some(settings@),
            None => settings_of_json(s@) is None,
        },
{
    if str_eq(s, "{\"active_corpus\":\"Default\"}") {
        return Some(Settings { active_corpus: CorpusType::Default });
    }
    let n = s.unicode_len();
    let pre = "{\"active_corpus\":{\"FromFile\":{\"path\":\"";
    let suf = "\"}}}";
    let pre_len = pre.unicode_len();
    let suf_len = suf.unicode_len();
    proof {
        reveal_strlit("{\"active_corpus\":{\"FromFile\":{\"path\":\"");
        reveal_strlit("\"}}}");
    }
    if n < pre_len || n - pre_len < suf_len {
        return None;
    }
    if !matches_at(s, 0, pre) {
        proof {
            assert(s@.subrange(0, pre_len as int) =~= s@.take(pre_len as int));
        }
        return None;
    }
    if !matches_at(s, n - suf_len, suf) {
        proof {
            assert(s@.subrange(n - suf_len, n - suf_len + suf_len) =~= s@.skip(n - suf_len));
        }
        return None;
    }
    proof {
        assert(s@.subrange(0, pre_len as int) =~= s@.take(pre_len as int));
        assert(s@.subrange(n - suf_len, n - suf_len + suf_len) =~= s@.skip(n - suf_len));
    }
    match unescape_range(s, pre_len, n - suf_len) {
        Some(chars) => {
            let path = chars_to_string(&chars);
            Some(Settings { active_corpus: CorpusType::FromFile { path } })
        },
        None => None,
    }
}

/// Every settings record comes back unchanged from its wire form.
pub proof fn law_settings_codec_round_trip(v: SettingsView)
    ensures
        settings_of_json(settings_json_of(v)) == Some(v),
{
    reveal_strlit("{\"active_corpus\":\"Default\"}");
    reveal_strlit("{\"active_corpus\":{\"FromFile\":{\"path\":\"");
    reveal_strlit("\"}}}");
    match v.active_corpus {
        SelectorView::Default => {
        },
        SelectorView::FromFile { path } => {
            let j = settings_json_of(v);
            assert(j.len() == file_prefix().len() + esc(path).len() + file_suffix().len());
            assert(j != default_json());
            assert(j.take(file_prefix().len() as int) =~= file_prefix());
            assert(j.skip(j.len() - file_suffix().len()) =~= file_suffix());
            assert(j.subrange(file_prefix().len() as int, j.len() - file_suffix().len())
                =~= esc(path));
            lemma_unesc_esc(path);
        },
    }
}

} // verus!
