//! Verified text utilities over character sequences.
//!
//! Strings are modelled by their `Seq<char>` views. Bodies, names and
//! commands are manipulated as `Vec<char>`, which gives constant-time
//! indexing; the two trusted conversions at the bottom move between
//! `str`/`String` and `Vec<char>`.

use vstd::prelude::*;

verus! {

/// A pattern occurs in `s` at position `i`.
pub open spec fn is_match(s: Seq<char>, pat: Seq<char>, i: int) -> bool {
    0 <= i && i + pat.len() <= s.len() && s.subrange(i, i + pat.len()) == pat
}

/// A pattern occurs somewhere in `s`.
pub open spec fn contains_seq(s: Seq<char>, pat: Seq<char>) -> bool {
    exists|i: int| is_match(s, pat, i)
}

/// Whitespace as trimmed from line input (ASCII blanks and line breaks).
pub open spec fn is_space(c: char) -> bool {
    c == ' ' || c == '\t' || c == '\r' || c == '\n'
}

pub open spec fn trim_start_spec(s: Seq<char>) -> Seq<char>
    decreases s.len(),
{
    if s.len() > 0 && is_space(s[0]) {
        trim_start_spec(s.subrange(1, s.len() as int))
    } else {
        s
    }
}

pub open spec fn trim_end_spec(s: Seq<char>) -> Seq<char>
    decreases s.len(),
{
    if s.len() > 0 && is_space(s[s.len() - 1]) {
        trim_end_spec(s.subrange(0, s.len() - 1))
    } else {
        s
    }
}

/// The input with leading and trailing whitespace removed.
pub open spec fn trim_spec(s: Seq<char>) -> Seq<char> {
    trim_end_spec(trim_start_spec(s))
}

pub fn is_space_char(c: char) -> (r: bool)
    ensures
        r == is_space(c),
{
    c == ' ' || c == '\t' || c == '\r' || c == '\n'
}

/// Copy of `s[from..to]`.
pub fn subvec(s: &Vec<char>, from: usize, to: usize) -> (r: Vec<char>)
    requires
        from <= to <= s@.len(),
    ensures
        r@ == s@.subrange(from as int, to as int),
{
    let mut r: Vec<char> = Vec::new();
    let mut i: usize = from;
    while i < to
        invariant
            from <= i <= to <= s@.len(),
            r@ == s@.subrange(from as int, i as int),
        decreases to - i,
    {
        r.push(s[i]);
        proof {
            assert(s@.subrange(from as int, i + 1) =~= s@.subrange(from as int, i as int).push(
                s@[i as int],
            ));
        }
        i = i + 1;
    }
    r
}

/// The pattern matches at position `i` of `s`.
pub fn match_at(s: &Vec<char>, pat: &Vec<char>, i: usize) -> (r: bool)
    ensures
        r == is_match(s@, pat@, i as int),
{
    let n: usize = s.len();
    let m: usize = pat.len();
    if i > n || n - i < m {
        return false;
    }
    let mut k: usize = 0;
    while k < m
        invariant
            n == s@.len(),
            m == pat@.len(),
            i + m <= n,
            k <= m,
            forall|j: int| 0 <= j < k ==> s@[i + j] == pat@[j],
        decreases m - k,
    {
        if s[i + k] != pat[k] {
            assert(s@.subrange(i as int, i + pat@.len())[k as int] != pat@[k as int]);
            return false;
        }
        k = k + 1;
    }
    proof {
        assert(s@.subrange(i as int, i + pat@.len()) =~= pat@);
    }
    true
}

/// First position where the pattern occurs, scanning left to right.
pub fn find_sub(s: &Vec<char>, pat: &Vec<char>) -> (r: Option<usize>)
    ensures
        match r {
            Some(i) => is_match(s@, pat@, i as int) && forall|j: int|
                0 <= j < i ==> !is_match(s@, pat@, j),
            None => forall|j: int| !is_match(s@, pat@, j),
        },
{
    if pat.len() > s.len() {
        return None;
    }
    if pat.len() == 0 {
        assert(s@.subrange(0, 0) =~= pat@);
        return Some(0);
    }
    let end: usize = s.len() - pat.len();
    let mut i: usize = 0;
    while i <= end
        invariant
            0 < pat@.len() <= s@.len(),
            s@.len() <= usize::MAX,
            end == s@.len() - pat@.len(),
            i <= end + 1,
            forall|j: int| 0 <= j < i ==> !is_match(s@, pat@, j),
        decreases end + 1 - i,
    {
        if match_at(s, pat, i) {
            return Some(i);
        }
        i = i + 1;
    }
    assert forall|j: int| !is_match(s@, pat@, j) by {
        if 0 <= j && j + pat@.len() <= s@.len() {
            assert(j < i);
        }
    }
    None
}

/// The pattern occurs somewhere in `s`.
pub fn contains_sub(s: &Vec<char>, pat: &Vec<char>) -> (r: bool)
    ensures
        r == contains_seq(s@, pat@),
{
    match find_sub(s, pat) {
        Some(i) => {
            assert(is_match(s@, pat@, i as int));
            true
        },
        None => false,
    }
}

/// `s` begins with the pattern.
pub fn starts_with_sub(s: &Vec<char>, pat: &Vec<char>) -> (r: bool)
    ensures
        r == is_match(s@, pat@, 0),
{
    match_at(s, pat, 0)
}

proof fn lemma_trim_start_range(s: Seq<char>, a: int)
    requires
        0 <= a <= s.len(),
        forall|k: int| 0 <= k < a ==> is_space(s[k]),
        a < s.len() ==> !is_space(s[a]),
    ensures
        trim_start_spec(s) == s.subrange(a, s.len() as int),
    decreases a,
{
    if a == 0 {
        if s.len() > 0 && is_space(s[0]) {
            assert(false);
        }
        assert(s.subrange(0, s.len() as int) =~= s);
    } else {
        let t = s.subrange(1, s.len() as int);
        lemma_trim_start_range(t, a - 1);
        assert(t.subrange(a - 1, t.len() as int) =~= s.subrange(a, s.len() as int));
    }
}

proof fn lemma_trim_end_range(s: Seq<char>, b: int)
    requires
        0 <= b <= s.len(),
        forall|k: int| b <= k < s.len() ==> is_space(s[k]),
        b > 0 ==> !is_space(s[b - 1]),
    ensures
        trim_end_spec(s) == s.subrange(0, b),
    decreases s.len() - b,
{
    if b == s.len() {
        if s.len() > 0 && is_space(s[s.len() - 1]) {
            assert(false);
        }
        assert(s.subrange(0, s.len() as int) =~= s);
    } else {
        let t = s.subrange(0, s.len() - 1);
        assert(is_space(s[s.len() - 1]));
        lemma_trim_end_range(t, b);
        assert(t.subrange(0, b) =~= s.subrange(0, b));
    }
}

/// The input with leading and trailing whitespace removed.
pub fn trim_chars(s: &Vec<char>) -> (r: Vec<char>)
    ensures
        r@ == trim_spec(s@),
{
    let mut a: usize = 0;
    while a < s.len() && is_space_char(s[a])
        invariant
            a <= s@.len(),
            forall|k: int| 0 <= k < a ==> is_space(s@[k]),
        decreases s@.len() - a,
    {
        a = a + 1;
    }
    let mut b: usize = s.len();
    while b > a && is_space_char(s[b - 1])
        invariant
            a <= b <= s@.len(),
            forall|k: int| 0 <= k < a ==> is_space(s@[k]),
            forall|k: int| b <= k < s@.len() ==> is_space(s@[k]),
        decreases b,
    {
        b = b - 1;
    }
    proof {
        lemma_trim_start_range(s@, a as int);
        let t = s@.subrange(a as int, s@.len() as int);
        lemma_trim_end_range(t, b - a);
        assert(t.subrange(0, b - a) =~= s@.subrange(a as int, b as int));
    }
    subvec(s, a, b)
}

/// Helper for [`lines_spec`]: remove one trailing carriage return.
pub open spec fn strip_cr(l: Seq<char>) -> Seq<char> {
    if l.len() > 0 && l[l.len() - 1] == '\r' {
        l.subrange(0, l.len() - 1)
    } else {
        l
    }
}

/// Helper for [`lines_spec`]: fold over the input, one character at a time,
/// with the line being built (`cur`) and the lines finished so far (`acc`).
pub open spec fn lines_rec(s: Seq<char>, cur: Seq<char>, acc: Seq<Seq<char>>) -> Seq<Seq<char>>
    decreases s.len(),
{
    if s.len() == 0 {
        if cur.len() == 0 {
            acc
        } else {
            acc.push(strip_cr(cur))
        }
    } else if s[0] == '\n' {
        lines_rec(s.subrange(1, s.len() as int), Seq::empty(), acc.push(strip_cr(cur)))
    } else {
        lines_rec(s.subrange(1, s.len() as int), cur.push(s[0]), acc)
    }
}

/// The lines of the input: segments between newlines, each with one
/// trailing carriage return removed, and no empty segment after a final
/// newline.
pub open spec fn lines_spec(s: Seq<char>) -> Seq<Seq<char>> {
    lines_rec(s, Seq::empty(), Seq::empty())
}

/// Split the input into its lines.
pub fn split_lines(s: &Vec<char>) -> (r: Vec<Vec<char>>)
    ensures
        r.deep_view() == lines_spec(s@),
{
    let mut acc: Vec<Vec<char>> = Vec::new();
    let mut cur: Vec<char> = Vec::new();
    let mut i: usize = 0;
    proof {
        assert(s@.subrange(0, s@.len() as int) =~= s@);
        assert(acc.deep_view() =~~= Seq::<Seq<char>>::empty());
        assert(cur@ =~= Seq::<char>::empty());
    }
    while i < s.len()
        invariant
            i <= s@.len(),
            lines_rec(s@.subrange(i as int, s@.len() as int), cur@, acc.deep_view())
                == lines_spec(s@),
        decreases s@.len() - i,
    {
        let ghost rest = s@.subrange(i as int, s@.len() as int);
        let ghost prev_acc = acc.deep_view();
        let ghost prev_cur = cur@;
        proof {
            assert(rest[0] == s@[i as int]);
            assert(rest.subrange(1, rest.len() as int) =~= s@.subrange(i + 1, s@.len() as int));
        }
        if s[i] == '\n' {
            let stripped = strip_cr_exec(&cur);
            acc.push(stripped);
            cur = Vec::new();
            proof {
                assert(acc.deep_view() =~~= prev_acc.push(strip_cr(prev_cur)));
                assert(cur@ =~= Seq::<char>::empty());
            }
        } else {
            let c = s[i];
            cur.push(c);
            proof {
                assert(acc.deep_view() =~~= prev_acc);
            }
        }
        i = i + 1;
    }
    proof {
        assert(s@.subrange(s@.len() as int, s@.len() as int) =~= Seq::<char>::empty());
    }
    if cur.len() > 0 {
        let ghost prev_acc = acc.deep_view();
        let stripped = strip_cr_exec(&cur);
        acc.push(stripped);
        proof {
            assert(acc.deep_view() =~~= prev_acc.push(strip_cr(cur@)));
        }
    }
    acc
}

/// Remove one trailing carriage return.
pub fn strip_cr_exec(l: &Vec<char>) -> (r: Vec<char>)
    ensures
        r@ == strip_cr(l@),
{
    if l.len() > 0 && l[l.len() - 1] == '\r' {
        subvec(l, 0, l.len() - 1)
    } else {
        subvec(l, 0, l.len())
    }
}

/// The parts joined with the separator between consecutive parts.
pub open spec fn join_spec(parts: Seq<Seq<char>>, sep: Seq<char>) -> Seq<char>
    decreases parts.len(),
{
    if parts.len() == 0 {
        Seq::empty()
    } else if parts.len() == 1 {
        parts[0]
    } else {
        parts[0] + sep + join_spec(parts.subrange(1, parts.len() as int), sep)
    }
}

proof fn lemma_join_push(parts: Seq<Seq<char>>, sep: Seq<char>, last: Seq<char>)
    ensures
        join_spec(parts.push(last), sep) == if parts.len() == 0 {
            last
        } else {
            join_spec(parts, sep) + sep + last
        },
    decreases parts.len(),
{
    let p2 = parts.push(last);
    if parts.len() == 0 {
        assert(p2.len() == 1);
        assert(p2[0] == last);
    } else if parts.len() == 1 {
        assert(p2.subrange(1, p2.len() as int) =~= Seq::empty().push(last));
        lemma_join_push(Seq::empty(), sep, last);
        assert(join_spec(p2, sep) == parts[0] + sep + last);
        assert(join_spec(parts, sep) == parts[0]);
    } else {
        let tail = parts.subrange(1, parts.len() as int);
        assert(p2.subrange(1, p2.len() as int) =~= tail.push(last));
        lemma_join_push(tail, sep, last);
        assert(join_spec(p2, sep) == parts[0] + sep + (join_spec(tail, sep) + sep + last));
        assert(parts[0] + sep + (join_spec(tail, sep) + sep + last) =~= (parts[0] + sep
            + join_spec(tail, sep)) + sep + last);
    }
}

/// Join the parts with the separator.
pub fn join_chars(parts: &Vec<Vec<char>>, sep: &Vec<char>) -> (r: Vec<char>)
    ensures
        r@ == join_spec(parts.deep_view(), sep@),
{
    let mut r: Vec<char> = Vec::new();
    let mut i: usize = 0;
    while i < parts.len()
        invariant
            i <= parts@.len(),
            r@ == join_spec(parts.deep_view().subrange(0, i as int), sep@),
        decreases parts@.len() - i,
    {
        proof {
            lemma_join_push(parts.deep_view().subrange(0, i as int), sep@, parts.deep_view()[
                i as int
            ]);
            assert(parts.deep_view().subrange(0, i as int).push(parts.deep_view()[i as int])
                =~= parts.deep_view().subrange(0, i + 1));
        }
        if i > 0 {
            append_chars(&mut r, sep);
        }
        append_chars(&mut r, &parts[i]);
        i = i + 1;
    }
    proof {
        assert(parts.deep_view().subrange(0, parts.deep_view().len() as int) =~= parts.deep_view());
    }
    r
}

/// Append `src` to `dst`.
pub fn append_chars(dst: &mut Vec<char>, src: &Vec<char>)
    ensures
        final(dst)@ == old(dst)@ + src@,
{
    let mut i: usize = 0;
    while i < src.len()
        invariant
            i <= src@.len(),
            dst@ == old(dst)@ + src@.subrange(0, i as int),
        decreases src@.len() - i,
    {
        dst.push(src[i]);
        proof {
            assert(old(dst)@ + src@.subrange(0, i + 1) =~= (old(dst)@ + src@.subrange(
                0,
                i as int,
            )).push(src@[i as int]));
        }
        i = i + 1;
    }
    proof {
        assert(src@.subrange(0, src@.len() as int) =~= src@);
    }
}

/// Append the characters of a string slice to `dst`.
pub fn append_str(dst: &mut Vec<char>, src: &str)
    ensures
        final(dst)@ == old(dst)@ + src@,
{
    let v = str_chars(src);
    append_chars(dst, &v);
}

// ------------------------------------------------------------------
// Decimal representation
// ------------------------------------------------------------------

/// The character for one decimal digit.
pub open spec fn dec_digit(d: int) -> char {
    if d == 0 {
        '0'
    } else if d == 1 {
        '1'
    } else if d == 2 {
        '2'
    } else if d == 3 {
        '3'
    } else if d == 4 {
        '4'
    } else if d == 5 {
        '5'
    } else if d == 6 {
        '6'
    } else if d == 7 {
        '7'
    } else if d == 8 {
        '8'
    } else {
        '9'
    }
}

/// The decimal representation of a number, most significant digit first.
pub open spec fn dec_spec(n: nat) -> Seq<char>
    decreases n,
{
    if n < 10 {
        seq![dec_digit(n as int)]
    } else {
        dec_spec(n / 10).push(dec_digit((n % 10) as int))
    }
}

fn digit_char(d: u64) -> (r: char)
    requires
        d < 10,
    ensures
        r == dec_digit(d as int),
{
    if d == 0 {
        '0'
    } else if d == 1 {
        '1'
    } else if d == 2 {
        '2'
    } else if d == 3 {
        '3'
    } else if d == 4 {
        '4'
    } else if d == 5 {
        '5'
    } else if d == 6 {
        '6'
    } else if d == 7 {
        '7'
    } else if d == 8 {
        '8'
    } else {
        '9'
    }
}

/// Append the decimal representation of `n` to `out`.
pub fn push_dec_u64(n: u64, out: &mut Vec<char>)
    ensures
        final(out)@ == old(out)@ + dec_spec(n as nat),
    decreases n,
{
    if n < 10 {
        out.push(digit_char(n));
        proof {
            assert(old(out)@ + dec_spec(n as nat) =~= old(out)@.push(dec_digit(n as int)));
        }
    } else {
        push_dec_u64(n / 10, out);
        out.push(digit_char(n % 10));
        proof {
            assert(old(out)@ + dec_spec(n as nat) =~= (old(out)@ + dec_spec((n / 10) as nat)).push(
                dec_digit((n % 10) as int),
            ));
        }
    }
}

/// The decimal representation of `n` as characters.
pub fn dec_chars_u64(n: u64) -> (r: Vec<char>)
    ensures
        r@ == dec_spec(n as nat),
{
    let mut out: Vec<char> = Vec::new();
    push_dec_u64(n, &mut out);
    out
}

// ------------------------------------------------------------------
// Decimal parsing
// ------------------------------------------------------------------

pub open spec fn is_digit(c: char) -> bool {
    '0' <= c && c <= '9'
}

pub open spec fn digit_val(c: char) -> int {
    c as int - '0' as int
}

/// Non-empty and made of decimal digits alone.
pub open spec fn all_digits(s: Seq<char>) -> bool {
    s.len() > 0 && forall|i: int| 0 <= i < s.len() ==> is_digit(s[i])
}

/// The number the digits denote, most significant digit first.
pub open spec fn chars_to_nat(s: Seq<char>) -> nat
    decreases s.len(),
{
    if s.len() == 0 {
        0
    } else {
        chars_to_nat(s.subrange(0, s.len() - 1)) * 10 + (if is_digit(s[s.len() - 1]) {
            digit_val(s[s.len() - 1]) as nat
        } else {
            0
        })
    }
}

proof fn lemma_chars_to_nat_grows(s: Seq<char>, i: int)
    requires
        0 <= i <= s.len(),
    ensures
        chars_to_nat(s.subrange(0, i)) <= chars_to_nat(s),
    decreases s.len() - i,
{
    if i == s.len() {
        assert(s.subrange(0, i) =~= s);
    } else {
        let t = s.subrange(0, i + 1);
        assert(t.subrange(0, i) =~= s.subrange(0, i));
        assert(chars_to_nat(t) == chars_to_nat(s.subrange(0, i)) * 10 + (if is_digit(t[i]) {
            digit_val(t[i]) as nat
        } else {
            0
        }));
        assert(chars_to_nat(s.subrange(0, i)) <= chars_to_nat(s.subrange(0, i)) * 10) by (
        nonlinear_arith);
        lemma_chars_to_nat_grows(s, i + 1);
    }
}

/// Parse a non-negative decimal number. Returns `Some` exactly when the
/// input is one or more decimal digits whose value fits in a `u64`.
pub fn parse_u64(v: &Vec<char>) -> (r: Option<u64>)
    ensures
        match r {
            Some(n) => all_digits(v@) && chars_to_nat(v@) <= u64::MAX && n == chars_to_nat(v@),
            None => !(all_digits(v@) && chars_to_nat(v@) <= u64::MAX),
        },
{
    if v.len() == 0 {
        return None;
    }
    let mut acc: u64 = 0;
    let mut i: usize = 0;
    while i < v.len()
        invariant
            i <= v@.len(),
            forall|k: int| 0 <= k < i ==> is_digit(v@[k]),
            acc == chars_to_nat(v@.subrange(0, i as int)),
        decreases v@.len() - i,
    {
        let c = v[i];
        if !(c >= '0' && c <= '9') {
            return None;
        }
        let d: u64 = (c as u32 - '0' as u32) as u64;
        assert(d == digit_val(v@[i as int]));
        if acc > (u64::MAX - d) / 10 {
            proof {
                assert(chars_to_nat(v@.subrange(0, i + 1)) == acc * 10 + d) by {
                    assert(v@.subrange(0, i + 1).subrange(0, i as int) =~= v@.subrange(
                        0,
                        i as int,
                    ));
                };
                assert(acc * 10 + d > u64::MAX) by (nonlinear_arith)
                    requires
                        acc > (u64::MAX - d) / 10,
                        d < 10,
                ;
                lemma_chars_to_nat_grows(v@, i + 1);
            }
            return None;
        }
        proof {
            assert(acc * 10 + d <= u64::MAX) by (nonlinear_arith)
                requires
                    acc <= (u64::MAX - d) / 10,
                    d < 10,
            ;
            assert(v@.subrange(0, i + 1).subrange(0, i as int) =~= v@.subrange(0, i as int));
        }
        acc = acc * 10 + d;
        i = i + 1;
    }
    proof {
        assert(v@.subrange(0, v@.len() as int) =~= v@);
    }
    Some(acc)
}

/// Parse a decimal number that must fit in a `u32`.
pub fn parse_u32(v: &Vec<char>) -> (r: Option<u32>)
    ensures
        match r {
            Some(n) => all_digits(v@) && chars_to_nat(v@) <= u32::MAX && n == chars_to_nat(v@),
            None => !(all_digits(v@) && chars_to_nat(v@) <= u32::MAX),
        },
{
    match parse_u64(v) {
        Some(n) => if n <= 0xffff_ffffu64 {
            Some(n as u32)
        } else {
            None
        },
        None => {
            assert(chars_to_nat(v@) <= u32::MAX ==> chars_to_nat(v@) <= u64::MAX);
            None
        },
    }
}

/// Parse a decimal number that must fit in a `u16`.
pub fn parse_u16(v: &Vec<char>) -> (r: Option<u16>)
    ensures
        match r {
            Some(n) => all_digits(v@) && chars_to_nat(v@) <= u16::MAX && n == chars_to_nat(v@),
            None => !(all_digits(v@) && chars_to_nat(v@) <= u16::MAX),
        },
{
    match parse_u64(v) {
        Some(n) => if n <= 0xffffu64 {
            Some(n as u16)
        } else {
            None
        },
        None => {
            assert(chars_to_nat(v@) <= u16::MAX ==> chars_to_nat(v@) <= u64::MAX);
            None
        },
    }
}

// ------------------------------------------------------------------
// Character maps
// ------------------------------------------------------------------

/// One character, lower-cased if it is an ASCII capital letter.
pub open spec fn lower_char(c: char) -> char {
    if 'A' <= c && c <= 'Z' {
        ((c as u8) + 32) as char
    } else {
        c
    }
}

/// The input with ASCII capital letters lower-cased.
pub open spec fn lower_spec(s: Seq<char>) -> Seq<char> {
    s.map_values(|c: char| lower_char(c))
}

/// Lower-case the ASCII capital letters of the input.
pub fn lower_chars(s: &Vec<char>) -> (r: Vec<char>)
    ensures
        r@ == lower_spec(s@),
{
    let mut r: Vec<char> = Vec::new();
    let mut i: usize = 0;
    while i < s.len()
        invariant
            i <= s@.len(),
            r@ == lower_spec(s@.subrange(0, i as int)),
        decreases s@.len() - i,
    {
        let c = s[i];
        if c >= 'A' && c <= 'Z' {
            let b: u8 = (c as u8) + 32;
            r.push(b as char);
        } else {
            r.push(c);
        }
        proof {
            assert(lower_spec(s@.subrange(0, i + 1)) =~= lower_spec(s@.subrange(0, i as int)).push(
                lower_char(s@[i as int]),
            ));
        }
        i = i + 1;
    }
    proof {
        assert(s@.subrange(0, s@.len() as int) =~= s@);
    }
    r
}

/// The two string slices hold the same characters.
pub fn str_eq(a: &str, b: &str) -> (r: bool)
    ensures
        r == (a@ == b@),
{
    let av = str_chars(a);
    let bv = str_chars(b);
    chars_eq(&av, &bv)
}

/// The two vectors hold the same characters.
pub fn chars_eq(a: &Vec<char>, b: &Vec<char>) -> (r: bool)
    ensures
        r == (a@ == b@),
{
    if a.len() != b.len() {
        return false;
    }
    if match_at(a, b, 0) {
        proof {
            assert(a@.subrange(0, b@.len() as int) =~= a@);
        }
        true
    } else {
        proof {
            if a@ == b@ {
                assert(a@.subrange(0, b@.len() as int) =~= b@);
            }
        }
        false
    }
}

/// The vector holds exactly the characters of the string slice.
pub fn chars_eq_str(a: &Vec<char>, b: &str) -> (r: bool)
    ensures
        r == (a@ == b@),
{
    let bv = str_chars(b);
    chars_eq(a, &bv)
}

/// `s` begins with the characters of the string slice.
pub fn starts_with_str(s: &Vec<char>, pat: &str) -> (r: bool)
    ensures
        r == is_match(s@, pat@, 0),
{
    let pv = str_chars(pat);
    starts_with_sub(s, &pv)
}

/// The characters of the string slice occur somewhere in `s`.
pub fn contains_str(s: &Vec<char>, pat: &str) -> (r: bool)
    ensures
        r == contains_seq(s@, pat@),
{
    let pv = str_chars(pat);
    contains_sub(s, &pv)
}

// ------------------------------------------------------------------
// Splitting at the first occurrence of a character
// ------------------------------------------------------------------

/// What comes before the first occurrence of `c`, and what after it
/// (`None` where `c` does not occur).
pub open spec fn split_first_spec(s: Seq<char>, c: char) -> (Seq<char>, Option<Seq<char>>)
    decreases s.len(),
{
    if s.len() == 0 {
        (Seq::empty(), None)
    } else if s[0] == c {
        (Seq::empty(), Some(s.subrange(1, s.len() as int)))
    } else {
        let r = split_first_spec(s.subrange(1, s.len() as int), c);
        (seq![s[0]] + r.0, r.1)
    }
}

proof fn lemma_split_first_none(s: Seq<char>, c: char)
    requires
        forall|k: int| 0 <= k < s.len() ==> s[k] != c,
    ensures
        split_first_spec(s, c) == (s, Option::<Seq<char>>::None),
    decreases s.len(),
{
    if s.len() == 0 {
        assert(s =~= Seq::<char>::empty());
    } else {
        let t = s.subrange(1, s.len() as int);
        lemma_split_first_none(t, c);
        assert(seq![s[0]] + t =~= s);
    }
}

proof fn lemma_split_first_at(s: Seq<char>, c: char, i: int)
    requires
        0 <= i < s.len(),
        s[i] == c,
        forall|k: int| 0 <= k < i ==> s[k] != c,
    ensures
        split_first_spec(s, c) == (
            s.subrange(0, i),
            Option::<Seq<char>>::Some(s.subrange(i + 1, s.len() as int)),
        ),
    decreases i,
{
    if i == 0 {
        assert(s.subrange(0, 0) =~= Seq::<char>::empty());
    } else {
        let t = s.subrange(1, s.len() as int);
        lemma_split_first_at(t, c, i - 1);
        assert(seq![s[0]] + t.subrange(0, i - 1) =~= s.subrange(0, i));
        assert(t.subrange(i, t.len() as int) =~= s.subrange(i + 1, s.len() as int));
    }
}

/// Split at the first occurrence of `c`.
pub fn split_first(s: &Vec<char>, c: char) -> (r: (Vec<char>, Option<Vec<char>>))
    ensures
        r.0@ == split_first_spec(s@, c).0,
        match r.1 {
            Some(v) => split_first_spec(s@, c).1 == Some(v@),
            None => split_first_spec(s@, c).1 is None,
        },
{
    let mut i: usize = 0;
    while i < s.len()
        invariant
            i <= s@.len(),
            forall|k: int| 0 <= k < i ==> s@[k] != c,
        decreases s@.len() - i,
    {
        if s[i] == c {
            proof {
                lemma_split_first_at(s@, c, i as int);
            }
            let before = subvec(s, 0, i);
            let after = subvec(s, i + 1, s.len());
            return (before, Some(after));
        }
        i = i + 1;
    }
    proof {
        lemma_split_first_none(s@, c);
    }
    let whole = subvec(s, 0, s.len());
    proof {
        assert(s@.subrange(0, s@.len() as int) =~= s@);
    }
    (whole, None)
}

/// The input with every occurrence of one character replaced by another.
pub open spec fn replace_char_spec(s: Seq<char>, from: char, to: char) -> Seq<char> {
    s.map_values(|c: char| if c == from { to } else { c })
}

/// Replace every occurrence of one character by another.
pub fn replace_chars(s: &Vec<char>, from: char, to: char) -> (r: Vec<char>)
    ensures
        r@ == replace_char_spec(s@, from, to),
{
    let mut r: Vec<char> = Vec::new();
    let mut i: usize = 0;
    while i < s.len()
        invariant
            i <= s@.len(),
            r@ == replace_char_spec(s@.subrange(0, i as int), from, to),
        decreases s@.len() - i,
    {
        let c = s[i];
        if c == from {
            r.push(to);
        } else {
            r.push(c);
        }
        proof {
            assert(replace_char_spec(s@.subrange(0, i + 1), from, to) =~= replace_char_spec(
                s@.subrange(0, i as int),
                from,
                to,
            ).push(if s@[i as int] == from {
                to
            } else {
                s@[i as int]
            }));
        }
        i = i + 1;
    }
    proof {
        assert(s@.subrange(0, s@.len() as int) =~= s@);
    }
    r
}

pub open spec fn trim_char_start(s: Seq<char>, c: char) -> Seq<char>
    decreases s.len(),
{
    if s.len() > 0 && s[0] == c {
        trim_char_start(s.subrange(1, s.len() as int), c)
    } else {
        s
    }
}

pub open spec fn trim_char_end(s: Seq<char>, c: char) -> Seq<char>
    decreases s.len(),
{
    if s.len() > 0 && s[s.len() - 1] == c {
        trim_char_end(s.subrange(0, s.len() - 1), c)
    } else {
        s
    }
}

/// The input with every leading and trailing occurrence of `c` removed.
pub open spec fn trim_char_spec(s: Seq<char>, c: char) -> Seq<char> {
    trim_char_end(trim_char_start(s, c), c)
}

proof fn lemma_trim_char_start_range(s: Seq<char>, c: char, a: int)
    requires
        0 <= a <= s.len(),
        forall|k: int| 0 <= k < a ==> s[k] == c,
        a < s.len() ==> s[a] != c,
    ensures
        trim_char_start(s, c) == s.subrange(a, s.len() as int),
    decreases a,
{
    if a == 0 {
        assert(s.subrange(0, s.len() as int) =~= s);
    } else {
        let t = s.subrange(1, s.len() as int);
        lemma_trim_char_start_range(t, c, a - 1);
        assert(t.subrange(a - 1, t.len() as int) =~= s.subrange(a, s.len() as int));
    }
}

proof fn lemma_trim_char_end_range(s: Seq<char>, c: char, b: int)
    requires
        0 <= b <= s.len(),
        forall|k: int| b <= k < s.len() ==> s[k] == c,
        b > 0 ==> s[b - 1] != c,
    ensures
        trim_char_end(s, c) == s.subrange(0, b),
    decreases s.len() - b,
{
    if b == s.len() {
        assert(s.subrange(0, s.len() as int) =~= s);
    } else {
        let t = s.subrange(0, s.len() - 1);
        lemma_trim_char_end_range(t, c, b);
        assert(t.subrange(0, b) =~= s.subrange(0, b));
    }
}

/// Remove every leading occurrence of `c`.
pub fn trim_matching_start(s: &Vec<char>, c: char) -> (r: Vec<char>)
    ensures
        r@ == trim_char_start(s@, c),
{
    let mut a: usize = 0;
    while a < s.len() && s[a] == c
        invariant
            a <= s@.len(),
            forall|k: int| 0 <= k < a ==> s@[k] == c,
        decreases s@.len() - a,
    {
        a = a + 1;
    }
    proof {
        lemma_trim_char_start_range(s@, c, a as int);
    }
    subvec(s, a, s.len())
}

/// Remove every leading and trailing occurrence of `c`.
pub fn trim_matching(s: &Vec<char>, c: char) -> (r: Vec<char>)
    ensures
        r@ == trim_char_spec(s@, c),
{
    let mut a: usize = 0;
    while a < s.len() && s[a] == c
        invariant
            a <= s@.len(),
            forall|k: int| 0 <= k < a ==> s@[k] == c,
        decreases s@.len() - a,
    {
        a = a + 1;
    }
    let mut b: usize = s.len();
    while b > a && s[b - 1] == c
        invariant
            a <= b <= s@.len(),
            forall|k: int| 0 <= k < a ==> s@[k] == c,
            forall|k: int| b <= k < s@.len() ==> s@[k] == c,
        decreases b,
    {
        b = b - 1;
    }
    proof {
        lemma_trim_char_start_range(s@, c, a as int);
        let t = s@.subrange(a as int, s@.len() as int);
        lemma_trim_char_end_range(t, c, b - a);
        assert(t.subrange(0, b - a) =~= s@.subrange(a as int, b as int));
    }
    subvec(s, a, b)
}

/// Index of the first occurrence of the pattern, or `-1` where it does not
/// occur.
pub open spec fn find_at(s: Seq<char>, pat: Seq<char>) -> int
    decreases s.len(),
{
    if pat.len() > s.len() {
        -1
    } else if is_match(s, pat, 0) {
        0
    } else if s.len() == 0 {
        -1
    } else {
        let r = find_at(s.subrange(1, s.len() as int), pat);
        if r < 0 {
            -1
        } else {
            r + 1
        }
    }
}

proof fn lemma_match_shift(s: Seq<char>, pat: Seq<char>, i: int)
    requires
        1 <= i,
        is_match(s, pat, i),
        s.len() > 0,
    ensures
        is_match(s.subrange(1, s.len() as int), pat, i - 1),
{
    assert(s.subrange(1, s.len() as int).subrange(i - 1, i - 1 + pat.len()) =~= s.subrange(
        i,
        i + pat.len(),
    ));
}

/// Where `i` is a first occurrence, it is the [`find_at`] index.
pub proof fn lemma_find_at_is(s: Seq<char>, pat: Seq<char>, i: int)
    requires
        is_match(s, pat, i),
        forall|j: int| 0 <= j < i ==> !is_match(s, pat, j),
    ensures
        find_at(s, pat) == i,
    decreases s.len(),
{
    if i == 0 {
    } else {
        let t = s.subrange(1, s.len() as int);
        lemma_match_shift(s, pat, i);
        assert forall|j: int| 0 <= j < i - 1 implies !is_match(t, pat, j) by {
            if is_match(t, pat, j) {
                assert(s.subrange(j + 1, j + 1 + pat.len()) =~= t.subrange(j, j + pat.len()));
                assert(is_match(s, pat, j + 1));
            }
        }
        lemma_find_at_is(t, pat, i - 1);
    }
}

/// Where the pattern does not occur, [`find_at`] is `-1`.
pub proof fn lemma_find_at_none(s: Seq<char>, pat: Seq<char>)
    requires
        forall|j: int| !is_match(s, pat, j),
    ensures
        find_at(s, pat) == -1,
    decreases s.len(),
{
    if pat.len() > s.len() {
    } else if s.len() == 0 {
    } else {
        let t = s.subrange(1, s.len() as int);
        assert forall|j: int| !is_match(t, pat, j) by {
            if is_match(t, pat, j) {
                assert(s.subrange(j + 1, j + 1 + pat.len()) =~= t.subrange(j, j + pat.len()));
                assert(is_match(s, pat, j + 1));
            }
        }
        lemma_find_at_none(t, pat);
    }
}

/// First index where the pattern occurs, as [`find_at`] gives it.
pub fn find_pat(s: &Vec<char>, pat: &Vec<char>) -> (r: Option<usize>)
    ensures
        match r {
            Some(i) => find_at(s@, pat@) == i && i + pat@.len() <= s@.len(),
            None => find_at(s@, pat@) == -1,
        },
{
    match find_sub(s, pat) {
        Some(i) => {
            proof {
                lemma_find_at_is(s@, pat@, i as int);
            }
            Some(i)
        },
        None => {
            proof {
                lemma_find_at_none(s@, pat@);
            }
            None
        },
    }
}

/// A pattern occurs at `i` exactly where it occurs at the start of the
/// suffix beginning there.
pub proof fn lemma_match_shift_to(s: Seq<char>, pat: Seq<char>, i: int)
    requires
        0 <= i <= s.len(),
    ensures
        is_match(s, pat, i) == is_match(s.subrange(i, s.len() as int), pat, 0),
{
    let rest = s.subrange(i, s.len() as int);
    if is_match(s, pat, i) {
        assert(rest.subrange(0, pat.len() as int) =~= s.subrange(i, i + pat.len()));
    }
    if is_match(rest, pat, 0) {
        assert(s.subrange(i, i + pat.len()) =~= rest.subrange(0, pat.len() as int));
    }
}

/// The input with every single quote replaced by the shell-safe sequence
/// quote, backslash, quote, quote.
pub open spec fn squote_escaped(s: Seq<char>) -> Seq<char>
    decreases s.len(),
{
    if s.len() == 0 {
        Seq::empty()
    } else {
        squote_escaped(s.drop_last()) + (if s.last() == '\'' {
            seq!['\'', '\\', '\'', '\'']
        } else {
            seq![s.last()]
        })
    }
}

/// Escape single quotes for embedding in a single-quoted shell word.
pub fn escape_squotes(s: &Vec<char>) -> (r: Vec<char>)
    ensures
        r@ == squote_escaped(s@),
{
    let mut r: Vec<char> = Vec::new();
    let mut i: usize = 0;
    proof {
        assert(s@.subrange(0, 0) =~= Seq::<char>::empty());
        assert(r@ =~= squote_escaped(s@.subrange(0, 0)));
    }
    while i < s.len()
        invariant
            i <= s@.len(),
            r@ == squote_escaped(s@.subrange(0, i as int)),
        decreases s@.len() - i,
    {
        proof {
            assert(s@.subrange(0, i + 1).drop_last() =~= s@.subrange(0, i as int));
            assert(s@.subrange(0, i + 1).last() == s@[i as int]);
        }
        let ghost prev = r@;
        let c = s[i];
        if c == '\'' {
            r.push('\'');
            r.push('\\');
            r.push('\'');
            r.push('\'');
            proof {
                assert(r@ =~= prev + seq!['\'', '\\', '\'', '\'']);
            }
        } else {
            r.push(c);
            proof {
                assert(r@ =~= prev + seq![s@[i as int]]);
            }
        }
        i = i + 1;
    }
    proof {
        assert(s@.subrange(0, s@.len() as int) =~= s@);
    }
    r
}

/// The input with every double quote preceded by a backslash.
pub open spec fn dquote_escaped(s: Seq<char>) -> Seq<char>
    decreases s.len(),
{
    if s.len() == 0 {
        Seq::empty()
    } else {
        dquote_escaped(s.drop_last()) + (if s.last() == '"' {
            seq!['\\', '"']
        } else {
            seq![s.last()]
        })
    }
}

/// Escape double quotes for embedding in a double-quoted shell word.
pub fn escape_dquotes(s: &Vec<char>) -> (r: Vec<char>)
    ensures
        r@ == dquote_escaped(s@),
{
    let mut r: Vec<char> = Vec::new();
    let mut i: usize = 0;
    proof {
        assert(s@.subrange(0, 0) =~= Seq::<char>::empty());
        assert(r@ =~= dquote_escaped(s@.subrange(0, 0)));
    }
    while i < s.len()
        invariant
            i <= s@.len(),
            r@ == dquote_escaped(s@.subrange(0, i as int)),
        decreases s@.len() - i,
    {
        proof {
            assert(s@.subrange(0, i + 1).drop_last() =~= s@.subrange(0, i as int));
            assert(s@.subrange(0, i + 1).last() == s@[i as int]);
        }
        let ghost prev = r@;
        let c = s[i];
        if c == '"' {
            r.push('\\');
            r.push('"');
            proof {
                assert(r@ =~= prev + seq!['\\', '"']);
            }
        } else {
            r.push(c);
            proof {
                assert(r@ =~= prev + seq![s@[i as int]]);
            }
        }
        i = i + 1;
    }
    proof {
        assert(s@.subrange(0, s@.len() as int) =~= s@);
    }
    r
}

/// What follows the last occurrence of `c`, or the whole input where `c`
/// does not occur.
pub open spec fn last_segment(s: Seq<char>, c: char) -> Seq<char>
    decreases s.len(),
{
    if s.len() == 0 {
        s
    } else if s.last() == c {
        Seq::empty()
    } else {
        last_segment(s.drop_last(), c).push(s.last())
    }
}

proof fn lemma_last_segment_none(s: Seq<char>, c: char)
    requires
        forall|k: int| 0 <= k < s.len() ==> s[k] != c,
    ensures
        last_segment(s, c) == s,
    decreases s.len(),
{
    if s.len() > 0 {
        lemma_last_segment_none(s.drop_last(), c);
        assert(s.drop_last().push(s.last()) =~= s);
    }
}

proof fn lemma_last_segment_at(s: Seq<char>, c: char, j: int)
    requires
        0 <= j < s.len(),
        s[j] == c,
        forall|k: int| j < k < s.len() ==> s[k] != c,
    ensures
        last_segment(s, c) == s.subrange(j + 1, s.len() as int),
    decreases s.len(),
{
    if j == s.len() - 1 {
        assert(s.subrange(j + 1, s.len() as int) =~= Seq::<char>::empty());
    } else {
        let t = s.drop_last();
        lemma_last_segment_at(t, c, j);
        assert(t.subrange(j + 1, t.len() as int).push(s.last()) =~= s.subrange(
            j + 1,
            s.len() as int,
        ));
    }
}

/// What follows the last occurrence of `c`, or the whole input where `c`
/// does not occur.
pub fn after_last(s: &Vec<char>, c: char) -> (r: Vec<char>)
    ensures
        r@ == last_segment(s@, c),
{
    let mut i: usize = s.len();
    while i > 0
        invariant
            i <= s@.len(),
            forall|k: int| i <= k < s@.len() ==> s@[k] != c,
        decreases i,
    {
        if s[i - 1] == c {
            proof {
                lemma_last_segment_at(s@, c, i - 1);
            }
            return subvec(s, i, s.len());
        }
        i = i - 1;
    }
    proof {
        lemma_last_segment_none(s@, c);
        assert(s@.subrange(0, s@.len() as int) =~= s@);
    }
    subvec(s, 0, s.len())
}

/// An owned `String` with the characters of a string slice.
pub fn string_of(s: &str) -> (r: String)
    ensures
        r@ == s@,
{
    let v = str_chars(s);
    chars_to_string(&v)
}

/// An exact copy of an optional string.
pub fn clone_opt_string(o: &Option<String>) -> (r: Option<String>)
    ensures
        r == *o,
{
    match o {
        Some(s) => Some(s.clone()),
        None => None,
    }
}

} // verus!

verus! {

/// Relies on `str::chars`: the characters of the string, in order.
#[verifier::external_body]
pub(crate) fn str_chars(s: &str) -> (r: Vec<char>)
    ensures
        r@ == s@,
{
    s.chars().collect()
}

/// Relies on `String: FromIterator<char>`: the characters joined into a string.
#[verifier::external_body]
pub(crate) fn chars_to_string(v: &Vec<char>) -> (r: String)
    ensures
        r@ == v@,
{
    v.iter().collect()
}

} // verus!
