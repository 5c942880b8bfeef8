//! Character-sequence utilities shared by the wire-format codec and the
//! path/state builders: whitespace skipping, literal matching, string-body
//! escaping and unescaping, and decimal rendering.

use vstd::prelude::*;

verus! {

/// Relies on std's `String::push`: appends the given character to the end of
/// the string.
pub assume_specification[ String::push ](s: &mut String, ch: char)
    ensures
        final(s)@ == old(s)@.push(ch),
;

/// The characters of `s`, as a vector.
pub fn to_chars(s: &str) -> (r: Vec<char>)
    ensures
        r@ == s@,
{
    let n = s.unicode_len();
    let mut r: Vec<char> = Vec::new();
    let mut i: usize = 0;
    while i < n
        invariant
            0 <= i <= n,
            n == s@.len(),
            r@ == s@.subrange(0, i as int),
        decreases n - i,
    {
        r.push(s.get_char(i));
        proof {
            assert(s@.subrange(0, i as int + 1) =~= s@.subrange(0, i as int).push(s@[i as int]));
        }
        i = i + 1;
    }
    proof {
        assert(s@.subrange(0, n as int) =~= s@);
    }
    r
}

/// A string holding exactly the characters of `v`.
pub fn from_chars(v: &[char]) -> (r: String)
    ensures
        r@ == v@,
{
    let mut out = String::new();
    let n = v.len();
    let mut i: usize = 0;
    while i < n
        invariant
            0 <= i <= n,
            n == v@.len(),
            out@ == v@.subrange(0, i as int),
        decreases n - i,
    {
        out.push(v[i]);
        proof {
            assert(v@.subrange(0, i as int + 1) =~= v@.subrange(0, i as int).push(v@[i as int]));
        }
        i = i + 1;
    }
    proof {
        assert(v@.subrange(0, n as int) =~= v@);
    }
    out
}

/// Whitespace accepted between tokens of the wire format.
pub open spec fn is_space_char(c: char) -> bool {
    c == ' ' || c == '\t' || c == '\n' || c == '\r'
}

pub fn is_space(c: char) -> (r: bool)
    ensures
        r == is_space_char(c),
{
    c == ' ' || c == '\t' || c == '\n' || c == '\r'
}

/// The suffix of `s` left after dropping leading whitespace.
pub open spec fn skip_spaces(s: Seq<char>) -> Seq<char>
    decreases s.len(),
{
    if s.len() > 0 && is_space_char(s[0]) {
        skip_spaces(s.skip(1))
    } else {
        s
    }
}

/// Advances `i` past any whitespace in `v`.
pub fn skip_spaces_at(v: &[char], i: usize) -> (j: usize)
    requires
        i <= v@.len(),
    ensures
        i <= j <= v@.len(),
        v@.skip(j as int) == skip_spaces(v@.skip(i as int)),
{
    let mut j = i;
    while j < v.len() && is_space(v[j])
        invariant
            i <= j <= v@.len(),
            skip_spaces(v@.skip(i as int)) == skip_spaces(v@.skip(j as int)),
        decreases v@.len() - j,
    {
        proof {
            assert(v@.skip(j as int)[0] == v@[j as int]);
            assert(v@.skip(j as int).skip(1) =~= v@.skip(j as int + 1));
        }
        j = j + 1;
    }
    j
}

/// The prefix of `s` left after dropping trailing whitespace.
pub open spec fn skip_spaces_end(s: Seq<char>) -> Seq<char>
    decreases s.len(),
{
    if s.len() > 0 && is_space_char(s[s.len() - 1]) {
        skip_spaces_end(s.take(s.len() - 1))
    } else {
        s
    }
}

/// `s` without leading and trailing whitespace.
pub open spec fn trim_spec(s: Seq<char>) -> Seq<char> {
    skip_spaces_end(skip_spaces(s))
}

/// The bounds of `v` without its leading and trailing whitespace.
pub fn trim_bounds(v: &[char]) -> (r: (usize, usize))
    ensures
        0 <= r.0 <= r.1 <= v@.len(),
        v@.subrange(r.0 as int, r.1 as int) == trim_spec(v@),
{
    let start = skip_spaces_at(v, 0);
    let ghost x = skip_spaces(v@);
    proof {
        assert(v@.skip(0) =~= v@);
    }
    let mut e = v.len();
    proof {
        assert(v@.skip(start as int).take((e - start) as int) =~= x);
    }
    while e > start && is_space(v[e - 1])
        invariant
            start <= e <= v@.len(),
            v@.skip(start as int) == x,
            skip_spaces_end(x) == skip_spaces_end(v@.skip(start as int).take((e - start) as int)),
        decreases e,
    {
        proof {
            let y = v@.skip(start as int).take((e - start) as int);
            assert(y[y.len() - 1] == v@[e - 1]);
            assert(y.take(y.len() - 1) =~= v@.skip(start as int).take((e - 1 - start) as int));
        }
        e = e - 1;
    }
    proof {
        let y = v@.skip(start as int).take((e - start) as int);
        if e > start {
            assert(y[y.len() - 1] == v@[e - 1]);
        }
        assert(skip_spaces_end(y) == y);
        assert(y =~= v@.subrange(start as int, e as int));
    }
    (start, e)
}

/// Returns `s` without its leading and trailing whitespace.
pub fn trim_str(s: &str) -> (r: String)
    ensures
        r@ == trim_spec(s@),
{
    let v = to_chars(s);
    let vs = v.as_slice();
    let (start, e) = trim_bounds(vs);
    let piece = vstd::slice::slice_subrange(vs, start, e);
    from_chars(piece)
}

/// `Some(rest)` when `p` is a prefix of `s` and `rest` is what follows it.
pub open spec fn strip_lit(s: Seq<char>, p: Seq<char>) -> Option<Seq<char>> {
    if p.len() <= s.len() && s.subrange(0, p.len() as int) == p {
        Some(s.skip(p.len() as int))
    } else {
        None
    }
}

pub proof fn lemma_strip_lit_concat(p: Seq<char>, rest: Seq<char>)
    ensures
        strip_lit(p + rest, p) == Some(rest),
{
    assert((p + rest).subrange(0, p.len() as int) =~= p);
    assert((p + rest).skip(p.len() as int) =~= rest);
}

/// Matches the literal `lit` at position `i` of `v`; on success returns the
/// index just past it.
pub fn match_lit(v: &[char], i: usize, lit: &str) -> (r: Option<usize>)
    requires
        i <= v@.len(),
    ensures
        match r {
            Some(j) => {
                &&& j == i + lit@.len()
                &&& j <= v@.len()
                &&& strip_lit(v@.skip(i as int), lit@) == Some(v@.skip(j as int))
            },
            None => strip_lit(v@.skip(i as int), lit@) is None,
        },
{
    let m = lit.unicode_len();
    let n = v.len();
    if n - i < m {
        return None;
    }
    let mut k: usize = 0;
    while k < m
        invariant
            0 <= k <= m,
            i + m <= n,
            n == v@.len(),
            m == lit@.len(),
            forall|t: int| 0 <= t < k ==> v@[i + t] == lit@[t],
        decreases m - k,
    {
        if v[i + k] != lit.get_char(k) {
            proof {
                assert(v@.skip(i as int).subrange(0, m as int)[k as int] != lit@[k as int]);
            }
            return None;
        }
        k = k + 1;
    }
    proof {
        assert(v@.skip(i as int).subrange(0, m as int) =~= lit@);
        assert(v@.skip(i as int).skip(m as int) =~= v@.skip((i + m) as int));
    }
    Some(i + m)
}

/// The character for one decimal digit.
pub open spec fn digit_char_spec(d: int) -> char {
    if d == 0 {
        '0'
    } else if d == 1 {
        '1'
    } else if d == 2 {
        '2'
    } else if d == 3 {
        '3'
    } else if d == 4 {
        '4'
    } else if d == 5 {
        '5'
    } else if d == 6 {
        '6'
    } else if d == 7 {
        '7'
    } else if d == 8 {
        '8'
    } else {
        '9'
    }
}

fn digit_char(d: u8) -> (c: char)
    requires
        d < 10,
    ensures
        c == digit_char_spec(d as int),
{
    match d {
        0 => '0',
        1 => '1',
        2 => '2',
        3 => '3',
        4 => '4',
        5 => '5',
        6 => '6',
        7 => '7',
        8 => '8',
        _ => '9',
    }
}

/// The decimal rendering of a non-negative number, most significant digit
/// first, without leading zeros (and `0` itself as one digit).
pub open spec fn dec_rep(n: int) -> Seq<char>
    recommends
        n >= 0,
    decreases n,
{
    if n < 10 {
        seq![digit_char_spec(n)]
    } else {
        dec_rep(n / 10).push(digit_char_spec(n % 10))
    }
}

/// Appends the decimal rendering of `n` to `out`.
pub fn push_dec(n: u64, out: &mut String)
    ensures
        final(out)@ == old(out)@ + dec_rep(n as int),
    decreases n,
{
    if n < 10 {
        out.push(digit_char(n as u8));
        proof {
            assert(old(out)@ + dec_rep(n as int) =~= old(out)@.push(digit_char_spec(n as int)));
        }
    } else {
        push_dec(n / 10, out);
        out.push(digit_char((n % 10) as u8));
        proof {
            assert(old(out)@ + dec_rep(n as int) =~= (old(out)@ + dec_rep(n as int / 10)).push(
                digit_char_spec(n as int % 10),
            ));
        }
    }
}

/// The decimal rendering of `n` as a string.
pub fn u64_to_string(n: u64) -> (r: String)
    ensures
        r@ == dec_rep(n as int),
{
    let mut out = String::new();
    push_dec(n, &mut out);
    proof {
        assert(Seq::<char>::empty() + dec_rep(n as int) =~= dec_rep(n as int));
    }
    out
}

/// The value of a decimal digit character, `-1` for any other character.
pub open spec fn digit_val(c: char) -> int {
    if c == '0' {
        0
    } else if c == '1' {
        1
    } else if c == '2' {
        2
    } else if c == '3' {
        3
    } else if c == '4' {
        4
    } else if c == '5' {
        5
    } else if c == '6' {
        6
    } else if c == '7' {
        7
    } else if c == '8' {
        8
    } else if c == '9' {
        9
    } else {
        -1
    }
}

fn digit_of(c: char) -> (d: Option<u8>)
    ensures
        match d {
            Some(x) => digit_val(c) == x as int && x < 10,
            None => digit_val(c) < 0,
        },
{
    match c {
        '0' => Some(0),
        '1' => Some(1),
        '2' => Some(2),
        '3' => Some(3),
        '4' => Some(4),
        '5' => Some(5),
        '6' => Some(6),
        '7' => Some(7),
        '8' => Some(8),
        '9' => Some(9),
        _ => None,
    }
}

/// Every character of `s` is a decimal digit.
pub open spec fn all_digits(s: Seq<char>) -> bool {
    forall|i: int| 0 <= i < s.len() ==> digit_val(s[i]) >= 0
}

/// The number written by the digits of `s`, most significant first.
pub open spec fn digits_val(s: Seq<char>) -> int
    decreases s.len(),
{
    if s.len() == 0 {
        0
    } else {
        digits_val(s.take(s.len() - 1)) * 10 + digit_val(s[s.len() - 1])
    }
}

pub proof fn lemma_digits_val_nonneg(s: Seq<char>)
    requires
        all_digits(s),
    ensures
        digits_val(s) >= 0,
    decreases s.len(),
{
    if s.len() > 0 {
        assert(all_digits(s.take(s.len() - 1)));
        lemma_digits_val_nonneg(s.take(s.len() - 1));
    }
}

/// A prefix of a digit string never writes a larger number than the whole.
pub proof fn lemma_digits_val_prefix(s: Seq<char>, i: int)
    requires
        all_digits(s),
        0 <= i <= s.len(),
    ensures
        digits_val(s.take(i)) <= digits_val(s),
    decreases s.len(),
{
    if i < s.len() {
        let b = s.take(s.len() - 1);
        assert(all_digits(b));
        assert(b.take(i) =~= s.take(i));
        lemma_digits_val_prefix(b, i);
        lemma_digits_val_nonneg(b);
    } else {
        assert(s.take(i) =~= s);
    }
}

/// Reads an unsigned 32-bit number written in decimal: succeeds exactly on a
/// non-empty all-digit string whose value fits.
pub fn parse_u32_digits(v: &[char]) -> (r: Option<u32>)
    ensures
        match r {
            Some(x) => v@.len() > 0 && all_digits(v@) && digits_val(v@) == x as int,
            None => v@.len() == 0 || !all_digits(v@) || digits_val(v@) > u32::MAX,
        },
{
    let n = v.len();
    if n == 0 {
        return None;
    }
    let mut acc: u64 = 0;
    let mut i: usize = 0;
    while i < n
        invariant
            0 <= i <= n,
            n == v@.len(),
            acc <= u32::MAX as u64,
            all_digits(v@.subrange(0, i as int)),
            acc as int == digits_val(v@.take(i as int)),
        decreases n - i,
    {
        let ghost pre = v@.take(i as int);
        let d = match digit_of(v[i]) {
            Some(d) => d,
            None => {
                return None;
            },
        };
        proof {
            assert(v@.take(i as int + 1).take(i as int) =~= pre);
            assert(v@.take(i as int + 1)[i as int] == v@[i as int]);
        }
        let next: u64 = acc * 10 + (d as u64);
        if next > u32::MAX as u64 {
            proof {
                assert(all_digits(v@.subrange(0, i as int + 1)));
                assert(v@.subrange(0, i as int + 1) =~= v@.take(i as int + 1));
                if all_digits(v@) {
                    lemma_digits_val_prefix(v@, i as int + 1);
                }
            }
            return None;
        }
        acc = next;
        proof {
            assert(v@.subrange(0, i as int + 1) =~= v@.take(i as int + 1));
        }
        i = i + 1;
    }
    proof {
        assert(v@.take(n as int) =~= v@);
        assert(v@.subrange(0, n as int) =~= v@);
    }
    Some(acc as u32)
}

/// Whether the characters of `a` are exactly those of `b`.
pub fn str_eq(a: &str, b: &str) -> (r: bool)
    ensures
        r == (a@ == b@),
{
    let v = to_chars(a);
    let vs = v.as_slice();
    proof {
        assert(vs@.skip(0) =~= a@);
    }
    match match_lit(vs, 0, b) {
        Some(j) => {
            let r = j == v.len();
            proof {
                if r {
                    assert(a@.subrange(0, b@.len() as int) =~= a@);
                }
            }
            r
        },
        None => {
            proof {
                if a@ == b@ {
                    assert(a@.subrange(0, b@.len() as int) =~= b@);
                }
            }
            false
        },
    }
}

/// `p` begins `s`.
pub open spec fn has_prefix(s: Seq<char>, p: Seq<char>) -> bool {
    p.len() <= s.len() && s.subrange(0, p.len() as int) == p
}

/// `p` ends `s`.
pub open spec fn has_suffix(s: Seq<char>, p: Seq<char>) -> bool {
    p.len() <= s.len() && s.skip(s.len() - p.len()) == p
}

pub fn starts_with_lit(s: &str, p: &str) -> (r: bool)
    ensures
        r == has_prefix(s@, p@),
{
    let v = to_chars(s);
    let vs = v.as_slice();
    proof {
        assert(vs@.skip(0) =~= s@);
    }
    match match_lit(vs, 0, p) {
        Some(_) => true,
        None => false,
    }
}

pub fn ends_with_lit(s: &str, p: &str) -> (r: bool)
    ensures
        r == has_suffix(s@, p@),
{
    let v = to_chars(s);
    let vs = v.as_slice();
    let m = p.unicode_len();
    if m > v.len() {
        return false;
    }
    let start = v.len() - m;
    match match_lit(vs, start, p) {
        Some(_) => {
            proof {
                assert(s@.skip(start as int).subrange(0, m as int) =~= s@.skip(
                    s@.len() - p@.len(),
                ));
            }
            true
        },
        None => {
            proof {
                if has_suffix(s@, p@) {
                    assert(s@.skip(start as int).subrange(0, m as int) =~= s@.skip(
                        s@.len() - p@.len(),
                    ));
                }
            }
            false
        },
    }
}

/// How one character is written inside a double-quoted string of the wire
/// format: quotes and backslashes get a backslash prefix.
pub open spec fn esc_char(c: char) -> Seq<char> {
    if c == '"' || c == '\\' {
        seq!['\\', c]
    } else {
        seq![c]
    }
}

/// The escaped form of a whole string body.
pub open spec fn escape_seq(s: Seq<char>) -> Seq<char>
    decreases s.len(),
{
    if s.len() == 0 {
        Seq::empty()
    } else {
        esc_char(s[0]) + escape_seq(s.skip(1))
    }
}

pub proof fn lemma_escape_append(a: Seq<char>, c: char)
    ensures
        escape_seq(a.push(c)) == escape_seq(a) + esc_char(c),
    decreases a.len(),
{
    if a.len() == 0 {
        assert(a.push(c).skip(1) =~= a);
        assert(escape_seq(a.push(c)) =~= escape_seq(a) + esc_char(c));
    } else {
        assert(a.push(c).skip(1) =~= a.skip(1).push(c));
        lemma_escape_append(a.skip(1), c);
        assert(escape_seq(a.push(c)) =~= escape_seq(a) + esc_char(c));
    }
}

/// Appends the escaped form of `s` to `out`.
pub fn escape_into(s: &str, out: &mut String)
    ensures
        final(out)@ == old(out)@ + escape_seq(s@),
{
    let n = s.unicode_len();
    let mut i: usize = 0;
    while i < n
        invariant
            0 <= i <= n,
            n == s@.len(),
            out@ == old(out)@ + escape_seq(s@.subrange(0, i as int)),
        decreases n - i,
    {
        let c = s.get_char(i);
        if c == '"' || c == '\\' {
            out.push('\\');
            out.push(c);
        } else {
            out.push(c);
        }
        proof {
            lemma_escape_append(s@.subrange(0, i as int), c);
            assert(s@.subrange(0, i as int + 1) =~= s@.subrange(0, i as int).push(c));
        }
        i = i + 1;
    }
    proof {
        assert(s@.subrange(0, n as int) =~= s@);
    }
}

/// Reads a double-quoted string body starting just after the opening quote:
/// yields the unescaped content and the remainder after the closing quote.
pub open spec fn parse_string_body(s: Seq<char>) -> Option<(Seq<char>, Seq<char>)>
    decreases s.len(),
{
    if s.len() == 0 {
        None
    } else if s[0] == '"' {
        Some((Seq::empty(), s.skip(1)))
    } else if s[0] == '\\' {
        if s.len() >= 2 && (s[1] == '"' || s[1] == '\\') {
            match parse_string_body(s.skip(2)) {
                Some(p) => Some((seq![s[1]] + p.0, p.1)),
                None => None,
            }
        } else {
            None
        }
    } else {
        match parse_string_body(s.skip(1)) {
            Some(p) => Some((seq![s[0]] + p.0, p.1)),
            None => None,
        }
    }
}

/// Reading back an escaped body stops at the closing quote and recovers the
/// original string exactly.
pub proof fn lemma_parse_escape(s: Seq<char>, rest: Seq<char>)
    ensures
        parse_string_body(escape_seq(s) + seq!['"'] + rest) == Some((s, rest)),
    decreases s.len(),
{
    let w = escape_seq(s) + seq!['"'] + rest;
    if s.len() == 0 {
        assert(escape_seq(s) =~= Seq::<char>::empty());
        assert(w =~= seq!['"'] + rest);
        assert(w[0] == '"');
        assert(w.skip(1) =~= rest);
    } else {
        let c = s[0];
        assert(escape_seq(s) == esc_char(c) + escape_seq(s.skip(1)));
        lemma_parse_escape(s.skip(1), rest);
        if c == '"' || c == '\\' {
            assert(w[0] == '\\');
            assert(w[1] == c);
            assert(w.skip(2) =~= escape_seq(s.skip(1)) + seq!['"'] + rest);
            assert(seq![c] + s.skip(1) =~= s);
        } else {
            assert(w[0] == c);
            assert(w.skip(1) =~= escape_seq(s.skip(1)) + seq!['"'] + rest);
            assert(seq![c] + s.skip(1) =~= s);
        }
    }
}

/// Combines an already-read piece of a string body with the outcome of
/// reading the remainder.
pub open spec fn body_combine(
    pre: Seq<char>,
    rest: Option<(Seq<char>, Seq<char>)>,
) -> Option<(Seq<char>, Seq<char>)> {
    match rest {
        Some(p) => Some((pre + p.0, p.1)),
        None => None,
    }
}

/// Reads a double-quoted string body in `v` starting at `i` (just after the
/// opening quote); on success returns the content and the index just past
/// the closing quote.
pub fn parse_string_body_at(v: &[char], i: usize) -> (r: Option<(Vec<char>, usize)>)
    requires
        i <= v@.len(),
    ensures
        match r {
            Some(p) => {
                &&& i <= p.1 <= v@.len()
                &&& parse_string_body(v@.skip(i as int)) == Some((p.0@, v@.skip(p.1 as int)))
            },
            None => parse_string_body(v@.skip(i as int)) is None,
        },
{
    let mut j = i;
    let mut out: Vec<char> = Vec::new();
    proof {
        let r0 = parse_string_body(v@.skip(i as int));
        if r0 is Some {
            let p = r0->0;
            assert(Seq::<char>::empty() + p.0 =~= p.0);
        }
    }
    loop
        invariant
            i <= j <= v@.len(),
            parse_string_body(v@.skip(i as int)) == body_combine(
                out@,
                parse_string_body(v@.skip(j as int)),
            ),
        decreases v@.len() - j,
    {
        if j >= v.len() {
            return None;
        }
        let c = v[j];
        proof {
            assert(v@.skip(j as int)[0] == v@[j as int]);
        }
        if c == '"' {
            proof {
                assert(v@.skip(j as int).skip(1) =~= v@.skip(j as int + 1));
                assert(out@ + Seq::<char>::empty() =~= out@);
            }
            return Some((out, j + 1));
        }
        if c == '\\' {
            if j + 1 < v.len() && (v[j + 1] == '"' || v[j + 1] == '\\') {
                let e = v[j + 1];
                let ghost out0 = out@;
                out.push(e);
                proof {
                    assert(v@.skip(j as int)[1] == v@[j as int + 1]);
                    assert(v@.skip(j as int).skip(2) =~= v@.skip(j as int + 2));
                    let r2 = parse_string_body(v@.skip(j as int + 2));
                    if r2 is Some {
                        let p = r2->0;
                        assert(out0 + (seq![e] + p.0) =~= out0.push(e) + p.0);
                    }
                }
                j = j + 2;
            } else {
                proof {
                    if j + 1 < v@.len() {
                        assert(v@.skip(j as int)[1] == v@[j as int + 1]);
                    }
                }
                return None;
            }
        } else {
            let ghost out0 = out@;
            out.push(c);
            proof {
                assert(v@.skip(j as int).skip(1) =~= v@.skip(j as int + 1));
                let r2 = parse_string_body(v@.skip(j as int + 1));
                if r2 is Some {
                    let p = r2->0;
                    assert(out0 + (seq![c] + p.0) =~= out0.push(c) + p.0);
                }
            }
            j = j + 1;
        }
    }
}

} // verus!
