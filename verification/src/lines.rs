//! Splitting corpus text into lines.
//!
//! A line break is a `'\n'`, with a `'\r'` immediately before it stripped;
//! a final line break yields no empty last line.

use vstd::prelude::*;

verus! {

/// A line with a trailing carriage return removed.
pub open spec fn strip_cr(l: Seq<char>) -> Seq<char> {
    if l.len() > 0 && l[l.len() - 1] == '\r' {
        l.drop_last()
    } else {
        l
    }
}

/// The lines of `s`, with `cur` the partial line read so far.
pub open spec fn lines_acc(s: Seq<char>, cur: Seq<char>) -> Seq<Seq<char>>
    decreases s.len(),
{
    if s.len() == 0 {
        if cur.len() == 0 {
            Seq::empty()
        } else {
            seq![cur]
        }
    } else if s[0] == '\n' {
        seq![strip_cr(cur)] + lines_acc(s.drop_first(), Seq::empty())
    } else {
        lines_acc(s.drop_first(), cur.push(s[0]))
    }
}

/// The lines of a text.
pub open spec fn spec_lines(s: Seq<char>) -> Seq<Seq<char>> {
    lines_acc(s, Seq::empty())
}

/// Split a text into its lines.
pub fn split_lines(text: &str) -> (r: Vec<String>)
    ensures
        r@.map_values(|s: String| s@) == spec_lines(text@),
{
    let n = text.unicode_len();
    let mut out: Vec<String> = Vec::new();
    let mut i: usize = 0;
    proof {
        assert(text@.skip(0) =~= text@);
    }
    while i < n
        invariant
            n == text@.len(),
            i <= n,
            spec_lines(text@) == out@.map_values(|s: String| s@) + lines_acc(
                text@.skip(i as int),
                Seq::<char>::empty(),
            ),
        decreases n - i,
    {
        let mut cur: Vec<char> = Vec::new();
        let mut j: usize = i;
        while j < n && text.get_char(j) != '\n'
            invariant
                n == text@.len(),
                i <= j <= n,
                cur@ == text@.subrange(i as int, j as int),
                lines_acc(text@.skip(i as int), Seq::<char>::empty()) == lines_acc(
                    text@.skip(j as int),
                    cur@,
                ),
            decreases n - j,
        {
            let c = text.get_char(j);
            cur.push(c);
            proof {
                assert(cur@ =~= text@.subrange(i as int, j + 1 as int));
                assert(text@.skip(j as int).len() == n - j);
                assert(text@.skip(j as int)[0] == text@[j as int]);
                assert(text@.skip(j as int).drop_first() =~= text@.skip(j + 1 as int));
            }
            j = j + 1;
        }
        if j < n {
            // a line break: strip a carriage return and emit the line
            let ghost cur_raw = cur@;
            if cur.len() > 0 && cur[cur.len() - 1] == '\r' {
                cur.pop();
            }
            proof {
                assert(cur@ == strip_cr(cur_raw));
                assert(text@.skip(j as int).len() == n - j);
                assert(text@.skip(j as int)[0] == text@[j as int]);
                assert(text@.skip(j as int).drop_first() =~= text@.skip(j + 1 as int));
                assert(lines_acc(text@.skip(j as int), cur_raw) == seq![strip_cr(cur_raw)]
                    + lines_acc(text@.skip(j + 1 as int), Seq::<char>::empty()));
            }
            let line = crate::textops::chars_to_string(&cur);
            let ghost out_before = out@;
            out.push(line);
            proof {
                assert(out@.map_values(|s: String| s@) =~= out_before.map_values(|s: String| s@)
                    .push(strip_cr(cur_raw)));
                assert(spec_lines(text@) =~= out@.map_values(|s: String| s@) + lines_acc(
                    text@.skip(j + 1 as int),
                    Seq::<char>::empty(),
                ));
            }
            i = j + 1;
        } else {
            // no further line break: emit the rest unchanged
            proof {
                assert(text@.skip(j as int) =~= Seq::<char>::empty());
                assert(cur@.len() == n - i);
                assert(lines_acc(text@.skip(j as int), cur@) == seq![cur@]);
            }
            let line = crate::textops::chars_to_string(&cur);
            let ghost out_before = out@;
            out.push(line);
            proof {
                assert(out@.map_values(|s: String| s@) =~= out_before.map_values(|s: String| s@)
                    .push(cur@));
                assert(text@.skip(n as int) =~= Seq::<char>::empty());
                assert(lines_acc(text@.skip(n as int), Seq::<char>::empty())
                    == Seq::<Seq<char>>::empty());
                assert(spec_lines(text@) =~= out@.map_values(|s: String| s@));
                assert(spec_lines(text@) =~= out@.map_values(|s: String| s@) + lines_acc(
                    text@.skip(n as int),
                    Seq::<char>::empty(),
                ));
            }
            i = n;
        }
    }
    proof {
        assert(text@.skip(n as int) =~= Seq::<char>::empty());
        assert(lines_acc(Seq::<char>::empty(), Seq::<char>::empty()) == Seq::<Seq<char>>::empty());
        assert(out@.map_values(|s: String| s@) =~= spec_lines(text@));
    }
    out
}

} // verus!
