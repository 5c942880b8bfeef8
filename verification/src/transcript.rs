//! Assembling transcribed text.  The native CLI's output holds timestamped
//! segment lines; the transcript is what follows the closing bracket of each
//! such line, trimmed, with parenthesised non-speech markers dropped and
//! single spaces between pieces.  The in-process engine instead yields
//! segment strings that are joined with spaces and trimmed.

use vstd::prelude::*;
use vstd::slice::slice_subrange;
use vstd::string::StringExecFns;
use crate::strutil::{from_chars, match_lit, to_chars, trim_bounds, trim_spec, trim_str};

verus! {

/// `p` occurs in `s` at position `i`.
pub open spec fn match_at(s: Seq<char>, p: Seq<char>, i: int) -> bool {
    0 <= i && i + p.len() <= s.len() && s.subrange(i, i + p.len()) == p
}

/// `p` occurs somewhere in `s`.
pub open spec fn contains_seq(s: Seq<char>, p: Seq<char>) -> bool {
    exists|i: int| match_at(s, p, i)
}

/// Whether the literal occurs in `v`.
pub fn contains_lit(v: &[char], lit: &str) -> (r: bool)
    ensures
        r == contains_seq(v@, lit@),
{
    let n = v.len();
    let m = lit.unicode_len();
    if m == 0 {
        proof {
            assert(v@.subrange(0, 0) =~= lit@);
            assert(match_at(v@, lit@, 0));
        }
        return true;
    }
    if m > n {
        proof {
            assert(!contains_seq(v@, lit@)) by {
                if contains_seq(v@, lit@) {
                    let j = choose|j: int| match_at(v@, lit@, j);
                }
            }
        }
        return false;
    }
    let mut i: usize = 0;
    while i <= n - m
        invariant
            1 <= m <= n,
            n == v@.len(),
            m == lit@.len(),
            0 <= i <= n - m + 1,
            forall|j: int| 0 <= j < i ==> !match_at(v@, lit@, j),
        decreases n - m + 1 - i,
    {
        match match_lit(v, i, lit) {
            Some(_) => {
                proof {
                    assert(v@.skip(i as int).subrange(0, m as int) =~= v@.subrange(
                        i as int,
                        i as int + m,
                    ));
                    assert(match_at(v@, lit@, i as int));
                }
                return true;
            },
            None => {
                proof {
                    assert(v@.skip(i as int).subrange(0, m as int) =~= v@.subrange(
                        i as int,
                        i as int + m,
                    ));
                    assert(!match_at(v@, lit@, i as int));
                }
            },
        }
        i = i + 1;
    }
    proof {
        assert(!contains_seq(v@, lit@)) by {
            if contains_seq(v@, lit@) {
                let j = choose|j: int| match_at(v@, lit@, j);
            }
        }
    }
    false
}

/// The index of the last occurrence of `c` in `s`, `-1` when absent.
pub open spec fn last_index_of(s: Seq<char>, c: char) -> int
    decreases s.len(),
{
    if s.len() == 0 {
        -1
    } else if s[s.len() - 1] == c {
        s.len() - 1
    } else {
        last_index_of(s.take(s.len() - 1), c)
    }
}

/// Finds the last occurrence of `c` in `v`.
pub fn rfind_char(v: &[char], c: char) -> (r: Option<usize>)
    ensures
        match r {
            Some(j) => j < v@.len() && last_index_of(v@, c) == j as int,
            None => last_index_of(v@, c) == -1,
        },
{
    let mut e = v.len();
    proof {
        assert(v@.take(v@.len() as int) =~= v@);
    }
    while e > 0
        invariant
            0 <= e <= v@.len(),
            last_index_of(v@, c) == last_index_of(v@.take(e as int), c),
        decreases e,
    {
        proof {
            let y = v@.take(e as int);
            assert(y[y.len() - 1] == v@[e - 1]);
            assert(y.take(y.len() - 1) =~= v@.take(e as int - 1));
        }
        if v[e - 1] == c {
            return Some(e - 1);
        }
        e = e - 1;
    }
    proof {
        assert(v@.take(0) =~= Seq::<char>::empty());
    }
    None
}

/// Splits off the first line of `s`: the part before the first newline, and
/// what follows that newline.
pub open spec fn take_line(s: Seq<char>) -> (Seq<char>, Seq<char>)
    decreases s.len(),
{
    if s.len() == 0 {
        (s, s)
    } else if s[0] == '\n' {
        (Seq::empty(), s.skip(1))
    } else {
        let p = take_line(s.skip(1));
        (seq![s[0]] + p.0, p.1)
    }
}

proof fn lemma_take_line_shrinks(s: Seq<char>)
    requires
        s.len() > 0,
    ensures
        take_line(s).1.len() < s.len(),
    decreases s.len(),
{
    if s[0] != '\n' {
        if s.skip(1).len() > 0 {
            lemma_take_line_shrinks(s.skip(1));
            assert(take_line(s).1 == take_line(s.skip(1)).1);
        } else {
            assert(s.skip(1).len() == 0);
            assert(take_line(s.skip(1)).1.len() == 0);
        }
    }
}

/// A line's trailing carriage return is not part of it.
pub open spec fn strip_cr(l: Seq<char>) -> Seq<char> {
    if l.len() > 0 && l[l.len() - 1] == '\r' {
        l.take(l.len() - 1)
    } else {
        l
    }
}

#[via_fn]
proof fn split_lines_decreases(s: Seq<char>) {
    if s.len() > 0 {
        lemma_take_line_shrinks(s);
    }
}

/// The lines of `s`, split on newlines, each without a trailing carriage
/// return.
pub open spec fn split_lines(s: Seq<char>) -> Seq<Seq<char>>
    decreases s.len(),
    via split_lines_decreases
{
    if s.len() == 0 {
        Seq::empty()
    } else {
        let p = take_line(s);
        seq![strip_cr(p.0)] + split_lines(p.1)
    }
}

/// `take_line` splits exactly at the first newline: at `k` when `s[k]` is
/// the first newline, or not at all when `s` holds none.
pub proof fn lemma_take_line_at(s: Seq<char>, k: int)
    requires
        0 <= k <= s.len(),
        forall|t: int| 0 <= t < k ==> s[t] != '\n',
        k < s.len() ==> s[k] == '\n',
    ensures
        k < s.len() ==> take_line(s) == (s.take(k), s.skip(k + 1)),
        k == s.len() ==> take_line(s) == (s, Seq::<char>::empty()),
    decreases s.len(),
{
    if s.len() == 0 {
    } else if s[0] == '\n' {
        assert(k == 0);
        assert(s.take(0) =~= Seq::<char>::empty());
    } else {
        lemma_take_line_at(s.skip(1), k - 1);
        if k < s.len() {
            assert(seq![s[0]] + s.skip(1).take(k - 1) =~= s.take(k));
            assert(s.skip(1).skip(k) =~= s.skip(k + 1));
        } else {
            assert(seq![s[0]] + s.skip(1) =~= s);
        }
    }
}

/// The transcript piece a CLI output line contributes: for a timestamped
/// segment line, what follows the last closing bracket, trimmed, unless it
/// is blank or a parenthesised non-speech marker.
pub open spec fn cli_line_text(line: Seq<char>) -> Option<Seq<char>> {
    if contains_seq(line, " --> "@) && last_index_of(line, ']') >= 0 {
        let t = trim_spec(line.skip(last_index_of(line, ']') + 1));
        if t.len() > 0 && t[0] != '(' && t[t.len() - 1] != ')' {
            Some(t)
        } else {
            None
        }
    } else {
        None
    }
}

/// Appends one line's contribution to the transcript gathered so far, with
/// a single space between pieces.
pub open spec fn cli_append(acc: Seq<char>, line: Seq<char>) -> Seq<char> {
    match cli_line_text(line) {
        Some(t) => if acc.len() == 0 {
            t
        } else {
            acc + seq![' '] + t
        },
        None => acc,
    }
}

/// Folds the lines into a transcript, left to right.
pub open spec fn cli_transcript_from(acc: Seq<char>, lines: Seq<Seq<char>>) -> Seq<char>
    decreases lines.len(),
{
    if lines.len() == 0 {
        acc
    } else {
        cli_transcript_from(cli_append(acc, lines[0]), lines.skip(1))
    }
}

/// The transcript the CLI's whole output encodes.
pub open spec fn extract_cli_transcript_spec(s: Seq<char>) -> Seq<char> {
    cli_transcript_from(Seq::empty(), split_lines(s))
}

/// Extracts the transcript from the native CLI's output.
pub fn extract_cli_transcript(stdout: &str) -> (r: String)
    ensures
        r@ == extract_cli_transcript_spec(stdout@),
{
    let v = to_chars(stdout);
    let vs = v.as_slice();
    let n = v.len();
    let mut result = String::new();
    let mut i: usize = 0;
    proof {
        assert(vs@.skip(0) =~= stdout@);
    }
    while i < n
        invariant
            0 <= i <= n,
            n == v@.len(),
            v@ == stdout@,
            vs@ == v@,
            extract_cli_transcript_spec(stdout@) == cli_transcript_from(
                result@,
                split_lines(v@.skip(i as int)),
            ),
        decreases n - i,
    {
        let ghost s_i = v@.skip(i as int);
        let ghost acc0 = result@;
        // find the end of this line
        let mut j = i;
        while j < n && v[j] != '\n'
            invariant
                i <= j <= n,
                n == v@.len(),
                forall|t: int| i <= t < j ==> v@[t] != '\n',
            decreases n - j,
        {
            j = j + 1;
        }
        proof {
            let k = j - i;
            assert forall|t: int| 0 <= t < k implies s_i[t] != '\n' by {
                assert(s_i[t] == v@[i + t]);
            }
            if j < n {
                assert(s_i[k as int] == v@[j as int]);
            }
            lemma_take_line_at(s_i, j - i);
        }
        let next_i = if j < n {
            j + 1
        } else {
            j
        };
        proof {
            if j < n {
                assert(take_line(s_i).1 =~= v@.skip(next_i as int));
            } else {
                assert(take_line(s_i).1 =~= v@.skip(next_i as int));
            }
        }
        // the raw line is v[i..j]; drop a trailing carriage return
        let line_end = if j > i && v[j - 1] == '\r' {
            j - 1
        } else {
            j
        };
        let line_slice = slice_subrange(vs, i, line_end);
        proof {
            let raw = take_line(s_i).0;
            assert(raw =~= v@.subrange(i as int, j as int));
            if j > i && v@[j as int - 1] == '\r' {
                assert(raw[raw.len() - 1] == v@[j as int - 1]);
                assert(strip_cr(raw) =~= v@.subrange(i as int, j as int - 1));
            } else {
                if raw.len() > 0 {
                    assert(raw[raw.len() - 1] == v@[j as int - 1]);
                }
                assert(strip_cr(raw) == raw);
            }
            assert(line_slice@ == strip_cr(raw));
        }
        let ghost line = line_slice@;
        // this line's contribution
        if contains_lit(line_slice, " --> ") {
            match rfind_char(line_slice, ']') {
                Some(b) => {
                    let piece = slice_subrange(line_slice, b + 1, line_slice.len());
                    proof {
                        assert(piece@ =~= line.skip(b as int + 1));
                    }
                    let (ts, te) = trim_bounds(piece);
                    let ghost t = trim_spec(piece@);
                    if te > ts && !(piece[ts] == '(') && !(piece[te - 1] == ')') {
                        proof {
                            assert(t[0] == piece@[ts as int]);
                            assert(t[t.len() - 1] == piece@[te as int - 1]);
                        }
                        let word = from_chars(slice_subrange(piece, ts, te));
                        if result.as_str().is_empty() {
                            result.append(word.as_str());
                            proof {
                                assert(acc0 + t =~= t);
                                assert(cli_append(acc0, line) == result@);
                            }
                        } else {
                            result.append(" ");
                            result.append(word.as_str());
                            proof {
                                reveal_strlit(" ");
                                assert(" "@ =~= seq![' ']);
                                assert((acc0 + " "@) + t =~= acc0 + seq![' '] + t);
                                assert(cli_append(acc0, line) == result@);
                            }
                        }
                    } else {
                        proof {
                            assert(cli_append(acc0, line) == result@);
                        }
                    }
                },
                None => {
                    proof {
                        assert(cli_append(acc0, line) == result@);
                    }
                },
            }
        } else {
            proof {
                assert(cli_append(acc0, line) == result@);
            }
        }
        proof {
            let lines = split_lines(s_i);
            assert(lines == seq![line] + split_lines(take_line(s_i).1));
            assert(lines[0] == line);
            assert(lines.skip(1) =~= split_lines(take_line(s_i).1));
            assert(cli_transcript_from(acc0, lines) == cli_transcript_from(
                result@,
                split_lines(v@.skip(next_i as int)),
            ));
        }
        i = next_i;
    }
    proof {
        assert(v@.skip(n as int) =~= Seq::<char>::empty());
    }
    result
}

/// The segments concatenated, each followed by one space.
pub open spec fn joined_segments_spec(segs: Seq<Seq<char>>) -> Seq<char>
    decreases segs.len(),
{
    if segs.len() == 0 {
        Seq::empty()
    } else {
        joined_segments_spec(segs.take(segs.len() - 1)) + segs[segs.len() - 1] + seq![' ']
    }
}

/// Joins the in-process engine's segment strings: each followed by one
/// space, then trimmed.
pub fn join_segments(segments: &Vec<String>) -> (r: String)
    ensures
        r@ == trim_spec(joined_segments_spec(segments@.map_values(|s: String| s@))),
{
    let ghost segs = segments@.map_values(|s: String| s@);
    let mut acc = String::new();
    let n = segments.len();
    let mut i: usize = 0;
    while i < n
        invariant
            0 <= i <= n,
            n == segments@.len(),
            segs == segments@.map_values(|s: String| s@),
            acc@ == joined_segments_spec(segs.take(i as int)),
        decreases n - i,
    {
        acc.append(segments[i].as_str());
        acc.push(' ');
        proof {
            let pre = segs.take(i as int + 1);
            assert(pre.take(pre.len() - 1) =~= segs.take(i as int));
            assert(pre[pre.len() - 1] == segs[i as int]);
        }
        i = i + 1;
    }
    proof {
        assert(segs.take(n as int) =~= segs);
    }
    trim_str(acc.as_str())
}

} // verus!
