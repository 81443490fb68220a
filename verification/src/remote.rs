//! The remote adapter's wire logic.
//!
//! The hosted deployment keeps the settings record in a key-oriented
//! document store, under a fixed key, and corpus files in a named drive.
//! The transport is an outside concern; what is decided here, and proved,
//! is the framing: the record document written for the settings, the shape
//! `{"name": ...}` a completed upload echoes back, and the settings held
//! inside a fetched record.

use vstd::prelude::*;

use crate::codec::esc;
use crate::codec::matches_at;
use crate::codec::settings_json_of;
use crate::codec::settings_of_json;
use crate::codec::settings_to_json;
use crate::codec::unesc;
use crate::codec::unescape_range;
use crate::selector::Settings;
use crate::selector::SettingsView;
use crate::textops::chars_to_string;

verus! {

/// What stands before the settings value in a record document.
pub open spec fn record_prefix() -> Seq<char> {
    "{\"key\":\"settings\",\"value\":"@
}

/// The record document persisted for a settings value: the fixed key and
/// the record's wire form.
pub open spec fn record_json_of(v: SettingsView) -> Seq<char> {
    record_prefix() + settings_json_of(v) + "}"@
}

/// The settings a record document holds: the prefix and the closing brace
/// stripped, the rest read as a settings record.
pub open spec fn settings_of_record_json(s: Seq<char>) -> Option<SettingsView> {
    if s.len() > record_prefix().len() + 1 && s.take(record_prefix().len() as int)
        == record_prefix() && s.skip(s.len() - 1) == "}"@ {
        settings_of_json(s.subrange(record_prefix().len() as int, s.len() - 1))
    } else {
        None
    }
}

/// The record document to persist for a settings record.
pub fn settings_record_json(settings: &Settings) -> (r: String)
    ensures
        r@ == record_json_of(settings@),
{
    let body = settings_to_json(settings);
    let head: String = "{\"key\":\"settings\",\"value\":".to_owned();
    head.concat(body.as_str()).concat("}")
}

/// Read the settings out of a fetched record document; nothing on any
/// other text.
pub fn settings_from_record_json(s: &str) -> (r: Option<Settings>)
    ensures
        match r {
            Some(settings) => settings_of_record_json(s@) == Some(settings@),
            None => settings_of_record_json(s@) is None,
        },
{
    let n = s.unicode_len();
    let pre = "{\"key\":\"settings\",\"value\":";
    let pre_len = pre.unicode_len();
    proof {
        reveal_strlit("{\"key\":\"settings\",\"value\":");
        reveal_strlit("}");
    }
    if n < pre_len + 2 {
        return None;
    }
    if !matches_at(s, 0, pre) {
        proof {
            assert(s@.subrange(0, pre_len as int) =~= s@.take(pre_len as int));
        }
        return None;
    }
    if !matches_at(s, n - 1, "}") {
        proof {
            assert(s@.subrange(n - 1, n as int) =~= s@.skip(n - 1));
            assert(s@.skip(n - 1) == "}"@ ==> s@.subrange(n - 1, n as int) == "}"@);
        }
        return None;
    }
    proof {
        assert(s@.subrange(0, pre_len as int) =~= s@.take(pre_len as int));
        assert(s@.subrange(n - 1, n as int) =~= s@.skip(n - 1));
    }
    crate::codec::settings_from_json(s.substring_char(pre_len, n - 1))
}

/// Every record document comes back unchanged to its settings record.
pub proof fn law_record_round_trip(v: SettingsView)
    ensures
        settings_of_record_json(record_json_of(v)) == Some(v),
{
    reveal_strlit("{\"key\":\"settings\",\"value\":");
    reveal_strlit("}");
    let j = record_json_of(v);
    crate::codec::law_settings_codec_round_trip(v);
    assert(settings_json_of(v).len() > 0) by {
        reveal_strlit("{\"active_corpus\":\"Default\"}");
        reveal_strlit("{\"active_corpus\":{\"FromFile\":{\"path\":\"");
        reveal_strlit("\"}}}");
        match v.active_corpus {
            crate::selector::SelectorView::Default => {},
            crate::selector::SelectorView::FromFile { path } => {},
        }
    }
    assert(j.take(record_prefix().len() as int) =~= record_prefix());
    assert(j.skip(j.len() - 1) =~= "}"@);
    assert(j.subrange(record_prefix().len() as int, j.len() - 1) =~= settings_json_of(v));
}

/// What stands before the stored name a completed upload echoes back.
pub open spec fn name_prefix() -> Seq<char> {
    "{\"name\":\""@
}

/// The shape an upload's response takes: the stored name, escaped.
pub open spec fn name_json_of(name: Seq<char>) -> Seq<char> {
    name_prefix() + esc(name) + "\"}"@
}

/// The stored name an upload response carries: the framing stripped, the
/// middle unescaped.
pub open spec fn name_of_json(s: Seq<char>) -> Option<Seq<char>> {
    if s.len() >= name_prefix().len() + 2 && s.take(name_prefix().len() as int) == name_prefix()
        && s.skip(s.len() - 2) == "\"}"@ {
        unesc(s.subrange(name_prefix().len() as int, s.len() - 2))
    } else {
        None
    }
}

/// Read the stored name out of an upload response; nothing on any other
/// text. A response without the expected shape is a broken contract with
/// the store, not a recoverable state.
pub fn name_from_json(s: &str) -> (r: Option<String>)
    ensures
        match r {
            Some(name) => name_of_json(s@) == Some(name@),
            None => name_of_json(s@) is None,
        },
{
    let n = s.unicode_len();
    let pre = "{\"name\":\"";
    let pre_len = pre.unicode_len();
    proof {
        reveal_strlit("{\"name\":\"");
        reveal_strlit("\"}");
    }
    if n < pre_len || n - pre_len < 2 {
        return None;
    }
    if !matches_at(s, 0, pre) {
        proof {
            assert(s@.subrange(0, pre_len as int) =~= s@.take(pre_len as int));
        }
        return None;
    }
    if !matches_at(s, n - 2, "\"}") {
        proof {
            assert(s@.subrange(n - 2, n as int) =~= s@.skip(n - 2));
        }
        return None;
    }
    proof {
        assert(s@.subrange(0, pre_len as int) =~= s@.take(pre_len as int));
        assert(s@.subrange(n - 2, n as int) =~= s@.skip(n - 2));
    }
    match unescape_range(s, pre_len, n - 2) {
        Some(chars) => Some(chars_to_string(&chars)),
        None => None,
    }
}

/// A name quoted for a listing: wrapped in double quotes, escaped.
pub open spec fn quoted(n: Seq<char>) -> Seq<char> {
    seq!['"'] + esc(n) + seq!['"']
}

/// The comma-separated body of a listing's array.
pub open spec fn list_json_of(names: Seq<Seq<char>>) -> Seq<char>
    decreases names.len(),
{
    if names.len() == 0 {
        Seq::empty()
    } else if names.len() == 1 {
        quoted(names[0])
    } else {
        quoted(names[0]) + seq![','] + list_json_of(names.drop_first())
    }
}

/// The names read from inside a quoted string of a listing body, `cur`
/// being the content read so far; continues with the strings after it.
pub open spec fn qitems_in(s: Seq<char>, cur: Seq<char>) -> Option<Seq<Seq<char>>>
    decreases s.len(),
{
    if s.len() == 0 {
        None
    } else if s[0] == '"' {
        match qitems_after(s.skip(1)) {
            Some(items) => Some(seq![cur] + items),
            None => None,
        }
    } else if s[0] == '\\' {
        if s.len() >= 2 && (s[1] == '\\' || s[1] == '"') {
            qitems_in(s.skip(2), cur.push(s[1]))
        } else {
            None
        }
    } else {
        qitems_in(s.skip(1), cur.push(s[0]))
    }
}

/// The names read from a listing body just after a closing quote: the end,
/// or a comma and another quoted string.
pub open spec fn qitems_after(s: Seq<char>) -> Option<Seq<Seq<char>>>
    decreases s.len(),
{
    if s.len() == 0 {
        Some(Seq::empty())
    } else if s[0] == ',' && s.len() >= 2 && s[1] == '"' {
        qitems_in(s.skip(2), Seq::empty())
    } else {
        None
    }
}

/// The names a listing body holds: none where it is empty, else its quoted
/// strings.
pub open spec fn names_of_list(s: Seq<char>) -> Option<Seq<Seq<char>>> {
    if s.len() == 0 {
        Some(Seq::empty())
    } else if s[0] == '"' {
        qitems_in(s.skip(1), Seq::empty())
    } else {
        None
    }
}

/// What stands before the array in a drive listing.
pub open spec fn names_prefix() -> Seq<char> {
    "{\"names\":["@
}

/// The shape a drive listing takes: every stored name, quoted, in the
/// `names` field.
pub open spec fn names_json_of(names: Seq<Seq<char>>) -> Seq<char> {
    names_prefix() + list_json_of(names) + "]}"@
}

/// The names a drive listing carries: the framing stripped, the array read
/// as quoted strings.
pub open spec fn names_of_json(s: Seq<char>) -> Option<Seq<Seq<char>>> {
    if s.len() >= names_prefix().len() + 2 && s.take(names_prefix().len() as int)
        == names_prefix() && s.skip(s.len() - 2) == "]}"@ {
        names_of_list(s.subrange(names_prefix().len() as int, s.len() - 2))
    } else {
        None
    }
}

/// Read the stored names out of a drive listing; nothing on any other
/// text. A response without the expected shape is a broken contract with
/// the store, not a recoverable state.
pub fn names_from_json(s: &str) -> (r: Option<Vec<String>>)
    ensures
        match r {
            Some(names) => names_of_json(s@) == Some(names@.map_values(|x: String| x@)),
            None => names_of_json(s@) is None,
        },
{
    let n = s.unicode_len();
    let pre = "{\"names\":[";
    let pre_len = pre.unicode_len();
    proof {
        reveal_strlit("{\"names\":[");
        reveal_strlit("]}");
    }
    if n < pre_len || n - pre_len < 2 {
        return None;
    }
    if !matches_at(s, 0, pre) {
        proof {
            assert(s@.subrange(0, pre_len as int) =~= s@.take(pre_len as int));
        }
        return None;
    }
    if !matches_at(s, n - 2, "]}") {
        proof {
            assert(s@.subrange(n - 2, n as int) =~= s@.skip(n - 2));
        }
        return None;
    }
    proof {
        assert(s@.subrange(0, pre_len as int) =~= s@.take(pre_len as int));
        assert(s@.subrange(n - 2, n as int) =~= s@.skip(n - 2));
    }
    let from = pre_len;
    let to = n - 2;
    let ghost mid = s@.subrange(from as int, to as int);
    let mut out: Vec<String> = Vec::new();
    if from == to {
        proof {
            assert(out@.map_values(|x: String| x@) =~= Seq::<Seq<char>>::empty());
        }
        return Some(out);
    }
    proof {
        assert(mid[0] == s@[from as int]);
    }
    if s.get_char(from) != '"' {
        return None;
    }
    let mut k: usize = from + 1;
    let mut cur: Vec<char> = Vec::new();
    let mut in_string = true;
    proof {
        assert(mid.skip(1) =~= s@.subrange(from + 1 as int, to as int));
        assert(names_of_json(s@) == names_of_list(mid));
    }
    while k < to
        invariant
            from + 1 <= k <= to <= s@.len() <= usize::MAX,
            mid == s@.subrange(from as int, to as int),
            mid.len() == to - from,
            names_of_json(s@) == names_of_list(mid),
            !in_string ==> cur@ == Seq::<char>::empty(),
            names_of_list(mid) == (if in_string {
                match qitems_in(mid.skip(k - from), cur@) {
                    Some(items) => Some(out@.map_values(|x: String| x@) + items),
                    None => None::<Seq<Seq<char>>>,
                }
            } else {
                match qitems_after(mid.skip(k - from)) {
                    Some(items) => Some(out@.map_values(|x: String| x@) + items),
                    None => None::<Seq<Seq<char>>>,
                }
            }),
        decreases to - k,
    {
        let ghost rel = k - from;
        proof {
            assert(mid.skip(rel).len() == to - k);
            assert(mid.skip(rel)[0] == s@[k as int]);
        }
        let c = s.get_char(k);
        if in_string {
            if c == '"' {
                proof {
                    assert(mid.skip(rel).skip(1) =~= mid.skip(rel + 1));
                }
                let ghost cur_snap = cur@;
                let ghost out_snap = out@;
                let item = chars_to_string(&cur);
                out.push(item);
                cur = Vec::new();
                in_string = false;
                proof {
                    assert(out@.map_values(|x: String| x@) =~= out_snap.map_values(
                        |x: String| x@,
                    ).push(cur_snap));
                    if qitems_after(mid.skip(rel + 1)) is Some {
                        let items = qitems_after(mid.skip(rel + 1))->Some_0;
                        assert(out_snap.map_values(|x: String| x@) + (seq![cur_snap] + items)
                            =~= out@.map_values(|x: String| x@) + items);
                    }
                }
                k = k + 1;
            } else if c == '\\' {
                if k + 1 >= to {
                    return None;
                }
                proof {
                    assert(mid.skip(rel)[1] == s@[k + 1 as int]);
                }
                let c2 = s.get_char(k + 1);
                if c2 == '\\' || c2 == '"' {
                    cur.push(c2);
                    proof {
                        assert(mid.skip(rel).skip(2) =~= mid.skip(rel + 2));
                    }
                    k = k + 2;
                } else {
                    return None;
                }
            } else {
                cur.push(c);
                proof {
                    assert(mid.skip(rel).skip(1) =~= mid.skip(rel + 1));
                }
                k = k + 1;
            }
        } else {
            if c == ',' {
                if k + 1 >= to {
                    return None;
                }
                proof {
                    assert(mid.skip(rel)[1] == s@[k + 1 as int]);
                }
                let c2 = s.get_char(k + 1);
                if c2 == '"' {
                    proof {
                        assert(mid.skip(rel).skip(2) =~= mid.skip(rel + 2));
                    }
                    in_string = true;
                    k = k + 2;
                } else {
                    return None;
                }
            } else {
                return None;
            }
        }
    }
    proof {
        assert(mid.skip(to - from) =~= Seq::<char>::empty());
    }
    if in_string {
        return None;
    }
    proof {
        assert(out@.map_values(|x: String| x@) + Seq::<Seq<char>>::empty() =~= out@.map_values(
            |x: String| x@,
        ));
    }
    Some(out)
}

/// Reading a quoted name continues past its closing quote: the name joins
/// whatever follows.
proof fn lemma_qitems_quoted(n: Seq<char>, rest: Seq<char>, cur: Seq<char>)
    ensures
        qitems_in(esc(n) + seq!['"'] + rest, cur) == (match qitems_after(rest) {
            Some(items) => Some(seq![cur + n] + items),
            None => None::<Seq<Seq<char>>>,
        }),
    decreases n.len(),
{
    if n.len() == 0 {
        let s = esc(n) + seq!['"'] + rest;
        assert(esc(n) =~= Seq::<char>::empty());
        assert(s =~= seq!['"'] + rest);
        assert(s[0] == '"');
        assert(s.skip(1) =~= rest);
        assert(cur + n =~= cur);
    } else {
        let s = esc(n) + seq!['"'] + rest;
        let tail = esc(n.drop_first()) + seq!['"'] + rest;
        lemma_qitems_quoted(n.drop_first(), rest, cur.push(n[0]));
        assert(cur.push(n[0]) + n.drop_first() =~= cur + n);
        if n[0] == '\\' {
            assert(s =~= seq!['\\', '\\'] + tail);
            assert(s[0] == '\\' && s[1] == '\\');
            assert(s.skip(2) =~= tail);
        } else if n[0] == '"' {
            assert(s =~= seq!['\\', '"'] + tail);
            assert(s[0] == '\\' && s[1] == '"');
            assert(s.skip(2) =~= tail);
        } else {
            assert(s =~= seq![n[0]] + tail);
            assert(s[0] == n[0]);
            assert(s.skip(1) =~= tail);
        }
    }
}

/// After a closing quote, a comma introduces each further name.
proof fn lemma_list_tail_parse(names: Seq<Seq<char>>)
    ensures
        qitems_after(
            if names.len() == 0 {
                Seq::<char>::empty()
            } else {
                seq![','] + list_json_of(names)
            },
        ) == Some(names),
    decreases names.len(),
{
    if names.len() == 0 {
    } else {
        let s = seq![','] + list_json_of(names);
        let tail = if names.len() == 1 {
            Seq::<char>::empty()
        } else {
            seq![','] + list_json_of(names.drop_first())
        };
        assert(list_json_of(names) =~= quoted(names[0]) + tail);
        assert(s =~= seq![','] + (seq!['"'] + (esc(names[0]) + seq!['"'] + tail)));
        assert(s[0] == ',' && s[1] == '"');
        assert(s.skip(2) =~= esc(names[0]) + seq!['"'] + tail);
        lemma_list_tail_parse(names.drop_first());
        lemma_qitems_quoted(names[0], tail, Seq::<char>::empty());
        assert(Seq::<char>::empty() + names[0] =~= names[0]);
        assert(seq![names[0]] + names.drop_first() =~= names);
    }
}

/// Every listing comes back unchanged from its response shape.
pub proof fn law_names_round_trip(names: Seq<Seq<char>>)
    ensures
        names_of_json(names_json_of(names)) == Some(names),
{
    reveal_strlit("{\"names\":[");
    reveal_strlit("]}");
    let j = names_json_of(names);
    let body = list_json_of(names);
    assert(j.take(names_prefix().len() as int) =~= names_prefix());
    assert(j.skip(j.len() - 2) =~= "]}"@);
    assert(j.subrange(names_prefix().len() as int, j.len() - 2) =~= body);
    if names.len() == 0 {
        assert(body =~= Seq::<char>::empty());
    } else {
        let tail = if names.len() == 1 {
            Seq::<char>::empty()
        } else {
            seq![','] + list_json_of(names.drop_first())
        };
        assert(body =~= quoted(names[0]) + tail);
        assert(body =~= seq!['"'] + (esc(names[0]) + seq!['"'] + tail));
        assert(body[0] == '"');
        assert(body.skip(1) =~= esc(names[0]) + seq!['"'] + tail);
        lemma_list_tail_parse(names.drop_first());
        lemma_qitems_quoted(names[0], tail, Seq::<char>::empty());
        assert(Seq::<char>::empty() + names[0] =~= names[0]);
        assert(seq![names[0]] + names.drop_first() =~= names);
    }
}

/// Every echoed name comes back unchanged from its response shape.
pub proof fn law_name_round_trip(name: Seq<char>)
    ensures
        name_of_json(name_json_of(name)) == Some(name),
{
    reveal_strlit("{\"name\":\"");
    reveal_strlit("\"}");
    let j = name_json_of(name);
    crate::codec::lemma_unesc_esc(name);
    assert(j.take(name_prefix().len() as int) =~= name_prefix());
    assert(j.skip(j.len() - 2) =~= "\"}"@);
    assert(j.subrange(name_prefix().len() as int, j.len() - 2) =~= esc(name));
}

} // verus!
