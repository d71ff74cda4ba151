//! Verified string utilities: substring search, prefix/suffix tests,
//! whitespace trimming, ASCII case folding, shell quoting and decimal
//! rendering.  Everything here is specified over `Seq<char>` views.

use vstd::prelude::*;

verus! {

/// The pattern `p` occurs in `s` starting at position `i`.
pub open spec fn substr_at(s: Seq<char>, p: Seq<char>, i: int) -> bool {
    0 <= i && i + p.len() <= s.len() && s.subrange(i, i + p.len() as int) == p
}

/// The pattern `p` occurs somewhere in `s`.
pub open spec fn contains_seq(s: Seq<char>, p: Seq<char>) -> bool {
    exists|i: int| substr_at(s, p, i)
}

/// Compare `p` against the characters of `s` starting at `i`.
fn match_at(s: &str, p: &str, i: usize, n: usize, m: usize) -> (r: bool)
    requires
        n == s@.len(),
        m == p@.len(),
        i + m <= n,
    ensures
        r == substr_at(s@, p@, i as int),
{
    let mut j: usize = 0;
    while j < m
        invariant
            n == s@.len(),
            m == p@.len(),
            i + m <= n,
            j <= m,
            forall|k: int| 0 <= k < j ==> s@[i + k] == p@[k],
        decreases m - j,
    {
        if s.get_char(i + j) != p.get_char(j) {
            assert(s@.subrange(i as int, i + m as int)[j as int] == s@[i + j]);
            assert(s@.subrange(i as int, i + m as int) != p@);
            return false;
        }
        j += 1;
    }
    assert(s@.subrange(i as int, i + m as int) =~= p@);
    true
}

/// Substring search; `r` holds exactly when `p`'s characters occur
/// contiguously in `s`.
pub fn contains_str(s: &str, p: &str) -> (r: bool)
    ensures
        r == contains_seq(s@, p@),
{
    let n = s.unicode_len();
    let m = p.unicode_len();
    if m > n {
        return false;
    }
    if m == 0 {
        assert(substr_at(s@, p@, 0)) by {
            assert(s@.subrange(0, 0) =~= p@);
        }
        return true;
    }
    let mut i: usize = 0;
    while i <= n - m
        invariant
            n == s@.len(),
            m == p@.len(),
            1 <= m <= n,
            i <= n - m + 1,
            forall|k: int| 0 <= k < i ==> !substr_at(s@, p@, k),
        decreases n - i,
    {
        if match_at(s, p, i, n, m) {
            return true;
        }
        i += 1;
    }
    assert(forall|k: int| substr_at(s@, p@, k) ==> 0 <= k < i);
    false
}

/// `p` is a prefix of `s`.
pub open spec fn starts_with_seq(s: Seq<char>, p: Seq<char>) -> bool {
    substr_at(s, p, 0)
}

/// `p` is a suffix of `s`.
pub open spec fn ends_with_seq(s: Seq<char>, p: Seq<char>) -> bool {
    substr_at(s, p, s.len() - p.len())
}

pub fn starts_with(s: &str, p: &str) -> (r: bool)
    ensures
        r == starts_with_seq(s@, p@),
{
    let n = s.unicode_len();
    let m = p.unicode_len();
    if m > n {
        return false;
    }
    match_at(s, p, 0, n, m)
}

pub fn ends_with(s: &str, p: &str) -> (r: bool)
    ensures
        r == ends_with_seq(s@, p@),
{
    let n = s.unicode_len();
    let m = p.unicode_len();
    if m > n {
        return false;
    }
    match_at(s, p, n - m, n, m)
}

/// The whitespace characters stripped by [`trim_str`]: the ASCII blanks
/// that command output is padded with.
pub open spec fn is_space(c: char) -> bool {
    c == ' ' || c == '\n' || c == '\t' || c == '\r'
}

pub open spec fn trim_start_spec(s: Seq<char>) -> Seq<char>
    decreases s.len(),
{
    if s.len() > 0 && is_space(s[0]) {
        trim_start_spec(s.drop_first())
    } else {
        s
    }
}

pub open spec fn trim_end_spec(s: Seq<char>) -> Seq<char>
    decreases s.len(),
{
    if s.len() > 0 && is_space(s[s.len() - 1]) {
        trim_end_spec(s.drop_last())
    } else {
        s
    }
}

/// `s` with leading and trailing blanks removed.
pub open spec fn trim_spec(s: Seq<char>) -> Seq<char> {
    trim_end_spec(trim_start_spec(s))
}

proof fn lemma_trim_start_at(s: Seq<char>, a: int)
    requires
        0 <= a <= s.len(),
        forall|k: int| 0 <= k < a ==> is_space(s[k]),
        a < s.len() ==> !is_space(s[a]),
    ensures
        trim_start_spec(s) =~= s.subrange(a, s.len() as int),
    decreases a,
{
    if a == 0 {
        if s.len() == 0 || !is_space(s[0]) {
            assert(trim_start_spec(s) == s);
        }
    } else {
        let t = s.drop_first();
        assert(forall|k: int| 0 <= k < a - 1 ==> is_space(t[k]));
        lemma_trim_start_at(t, a - 1);
        assert(t.subrange(a - 1, t.len() as int) =~= s.subrange(a, s.len() as int));
    }
}

proof fn lemma_trim_end_at(s: Seq<char>, b: int)
    requires
        0 <= b <= s.len(),
        forall|k: int| b <= k < s.len() ==> is_space(s[k]),
        b > 0 ==> !is_space(s[b - 1]),
    ensures
        trim_end_spec(s) =~= s.subrange(0, b),
    decreases s.len() - b,
{
    if b == s.len() {
        if s.len() == 0 || !is_space(s[s.len() - 1]) {
            assert(trim_end_spec(s) == s);
            assert(s.subrange(0, b) =~= s);
        }
    } else {
        let t = s.drop_last();
        assert(is_space(s[s.len() - 1]));
        lemma_trim_end_at(t, b);
        assert(t.subrange(0, b) =~= s.subrange(0, b));
    }
}

fn is_space_char(c: char) -> (r: bool)
    ensures
        r == is_space(c),
{
    c == ' ' || c == '\n' || c == '\t' || c == '\r'
}

/// Strip leading and trailing blanks, as probe interpretation does before
/// comparing command output against an expected token.
pub fn trim_str(s: &str) -> (r: &str)
    ensures
        r@ == trim_spec(s@),
{
    let n = s.unicode_len();
    let mut a: usize = 0;
    while a < n && is_space_char(s.get_char(a))
        invariant
            n == s@.len(),
            a <= n,
            forall|k: int| 0 <= k < a ==> is_space(s@[k]),
        decreases n - a,
    {
        a += 1;
    }
    proof {
        lemma_trim_start_at(s@, a as int);
    }
    if a == n {
        proof {
            reveal_strlit("");
        }
        assert(""@ =~= trim_spec(s@));
        return "";
    }
    let mut b: usize = n;
    while b > a + 1 && is_space_char(s.get_char(b - 1))
        invariant
            n == s@.len(),
            a < n,
            a + 1 <= b <= n,
            forall|k: int| b <= k < n ==> is_space(s@[k]),
        decreases b,
    {
        b -= 1;
    }
    let ghost t = trim_start_spec(s@);
    proof {
        assert(t =~= s@.subrange(a as int, n as int));
        if b == a + 1 {
            assert(!is_space(t[0]));
        } else {
            assert(!is_space(s@[b - 1]));
        }
        lemma_trim_end_at(t, b - a);
        assert(t.subrange(0, b - a) =~= s@.subrange(a as int, b as int));
    }
    s.substring_char(a, b)
}

/// Trimmed comparison against an expected token.
pub fn trim_eq(s: &str, expected: &str) -> (r: bool)
    ensures
        r == (trim_spec(s@) == expected@),
{
    str_eq(trim_str(s), expected)
}

/// ASCII case folding of one character; anything outside `A`..`Z` is kept.
pub open spec fn lower_char(c: char) -> char {
    if 65 <= c as u32 && c as u32 <= 90 {
        ((c as u32 + 32) as u8) as char
    } else {
        c
    }
}

/// `s` folded to lower case, character by character.
pub open spec fn lower_seq(s: Seq<char>) -> Seq<char> {
    s.map_values(|c: char| lower_char(c))
}

fn lower_char_exec(c: char) -> (r: char)
    ensures
        r == lower_char(c),
{
    let u = c as u32;
    if 65 <= u && u <= 90 {
        ((u + 32) as u8) as char
    } else {
        c
    }
}

/// Compare `p` against the case-folded characters of `s` starting at `i`.
fn match_at_lower(s: &str, p: &str, i: usize, n: usize, m: usize) -> (r: bool)
    requires
        n == s@.len(),
        m == p@.len(),
        i + m <= n,
    ensures
        r == substr_at(lower_seq(s@), p@, i as int),
{
    let mut j: usize = 0;
    while j < m
        invariant
            n == s@.len(),
            m == p@.len(),
            i + m <= n,
            j <= m,
            forall|k: int| 0 <= k < j ==> lower_seq(s@)[i + k] == p@[k],
        decreases m - j,
    {
        if lower_char_exec(s.get_char(i + j)) != p.get_char(j) {
            assert(lower_seq(s@).subrange(i as int, i + m as int)[j as int] == lower_seq(
                s@,
            )[i + j]);
            assert(lower_seq(s@).subrange(i as int, i + m as int) != p@);
            return false;
        }
        j += 1;
    }
    assert(lower_seq(s@).subrange(i as int, i + m as int) =~= p@);
    true
}

/// Case-insensitive substring search: `p` (given in lower case) occurs in
/// the case-folded view of `s`.
pub fn contains_lower(s: &str, p: &str) -> (r: bool)
    ensures
        r == contains_seq(lower_seq(s@), p@),
{
    let n = s.unicode_len();
    let m = p.unicode_len();
    if m > n {
        return false;
    }
    if m == 0 {
        assert(substr_at(lower_seq(s@), p@, 0)) by {
            assert(lower_seq(s@).subrange(0, 0) =~= p@);
        }
        return true;
    }
    let mut i: usize = 0;
    while i <= n - m
        invariant
            n == s@.len(),
            m == p@.len(),
            1 <= m <= n,
            i <= n - m + 1,
            forall|k: int| 0 <= k < i ==> !substr_at(lower_seq(s@), p@, k),
        decreases n - i,
    {
        if match_at_lower(s, p, i, n, m) {
            return true;
        }
        i += 1;
    }
    assert(forall|k: int| substr_at(lower_seq(s@), p@, k) ==> 0 <= k < i);
    false
}

/// How one character is written inside a single-quoted shell word: a quote
/// closes the word, emits an escaped quote, and reopens it.
pub open spec fn quote_escape(c: char) -> Seq<char> {
    if c == '\'' {
        seq!['\'', '\\', '\'', '\'']
    } else {
        seq![c]
    }
}

/// `s` with every single quote rewritten for embedding in a
/// single-quoted shell word.
pub open spec fn shell_escaped(s: Seq<char>) -> Seq<char>
    decreases s.len(),
{
    if s.len() == 0 {
        Seq::empty()
    } else {
        shell_escaped(s.drop_last()) + quote_escape(s[s.len() - 1])
    }
}

/// Rewrite `s` so it can stand inside a single-quoted shell word.
pub fn shell_escape(s: &str) -> (r: String)
    ensures
        r@ == shell_escaped(s@),
{
    let n = s.unicode_len();
    let mut out = String::new();
    let mut i: usize = 0;
    while i < n
        invariant
            n == s@.len(),
            i <= n,
            out@ == shell_escaped(s@.subrange(0, i as int)),
        decreases n - i,
    {
        let c = s.get_char(i);
        if c == '\'' {
            out.append("'\\''");
            proof {
                reveal_strlit("'\\''");
                assert(("'\\''")@ =~= quote_escape(c));
            }
        } else {
            out.append(s.substring_char(i, i + 1));
            assert(s@.subrange(i as int, i + 1) =~= quote_escape(c));
        }
        proof {
            let pre = s@.subrange(0, i + 1);
            assert(pre.drop_last() =~= s@.subrange(0, i as int));
            assert(pre[pre.len() - 1] == s@[i as int]);
        }
        i += 1;
    }
    assert(s@.subrange(0, n as int) =~= s@);
    out
}

/// The decimal digit character for `d` in `0..10`.
pub open spec fn dec_digit(d: int) -> char {
    if d == 0 {
        '0'
    } else if d == 1 {
        '1'
    } else if d == 2 {
        '2'
    } else if d == 3 {
        '3'
    } else if d == 4 {
        '4'
    } else if d == 5 {
        '5'
    } else if d == 6 {
        '6'
    } else if d == 7 {
        '7'
    } else if d == 8 {
        '8'
    } else {
        '9'
    }
}

/// The decimal digits of a non-negative `n`, most significant first.
pub open spec fn dec_seq(n: int) -> Seq<char>
    decreases n,
{
    if n < 10 {
        seq![dec_digit(n)]
    } else {
        dec_seq(n / 10) + seq![dec_digit(n % 10)]
    }
}

/// Decimal rendering of a signed number, with a leading minus when negative.
pub open spec fn dec_int_seq(n: int) -> Seq<char> {
    if n < 0 {
        seq!['-'] + dec_seq(-n)
    } else {
        dec_seq(n)
    }
}

fn digit_str(d: u64) -> (r: &'static str)
    requires
        d < 10,
    ensures
        r@ == seq![dec_digit(d as int)],
{
    if d == 0 {
        proof { reveal_strlit("0"); }
        assert(("0")@ =~= seq![dec_digit(0)]);
        "0"
    } else if d == 1 {
        proof { reveal_strlit("1"); }
        assert(("1")@ =~= seq![dec_digit(1)]);
        "1"
    } else if d == 2 {
        proof { reveal_strlit("2"); }
        assert(("2")@ =~= seq![dec_digit(2)]);
        "2"
    } else if d == 3 {
        proof { reveal_strlit("3"); }
        assert(("3")@ =~= seq![dec_digit(3)]);
        "3"
    } else if d == 4 {
        proof { reveal_strlit("4"); }
        assert(("4")@ =~= seq![dec_digit(4)]);
        "4"
    } else if d == 5 {
        proof { reveal_strlit("5"); }
        assert(("5")@ =~= seq![dec_digit(5)]);
        "5"
    } else if d == 6 {
        proof { reveal_strlit("6"); }
        assert(("6")@ =~= seq![dec_digit(6)]);
        "6"
    } else if d == 7 {
        proof { reveal_strlit("7"); }
        assert(("7")@ =~= seq![dec_digit(7)]);
        "7"
    } else if d == 8 {
        proof { reveal_strlit("8"); }
        assert(("8")@ =~= seq![dec_digit(8)]);
        "8"
    } else {
        proof { reveal_strlit("9"); }
        assert(("9")@ =~= seq![dec_digit(9)]);
        "9"
    }
}

/// Append the decimal digits of `n` to `out`.
pub fn append_u64_dec(out: &mut String, n: u64)
    ensures
        final(out)@ == old(out)@ + dec_seq(n as int),
    decreases n,
{
    if n < 10 {
        out.append(digit_str(n));
    } else {
        append_u64_dec(out, n / 10);
        out.append(digit_str(n % 10));
        assert(old(out)@ + dec_seq(n as int / 10) + seq![dec_digit(n as int % 10)] =~= old(
            out,
        )@ + dec_seq(n as int));
    }
}

/// Decimal rendering of an unsigned number.
pub fn u64_to_dec(n: u64) -> (r: String)
    ensures
        r@ == dec_seq(n as int),
{
    let mut out = String::new();
    append_u64_dec(&mut out, n);
    assert(Seq::<char>::empty() + dec_seq(n as int) =~= dec_seq(n as int));
    out
}

/// Decimal rendering of a signed number.
pub fn i32_to_dec(n: i32) -> (r: String)
    ensures
        r@ == dec_int_seq(n as int),
{
    let mut out = String::new();
    if n < 0 {
        out.append("-");
        proof {
            reveal_strlit("-");
            assert(("-")@ =~= seq!['-']);
        }
        let wide: i64 = n as i64;
        let m: u64 = (-wide) as u64;
        append_u64_dec(&mut out, m);
        assert(Seq::<char>::empty() + ("-")@ + dec_seq(m as int) =~= dec_int_seq(n as int));
    } else {
        append_u64_dec(&mut out, n as u64);
        assert(Seq::<char>::empty() + dec_seq(n as int) =~= dec_int_seq(n as int));
    }
    out
}

/// Character-for-character equality of two strings.
pub fn str_eq(s: &str, p: &str) -> (r: bool)
    ensures
        r == (s@ == p@),
{
    let n = s.unicode_len();
    let m = p.unicode_len();
    if n != m {
        return false;
    }
    let r = match_at(s, p, 0, n, m);
    assert(s@.subrange(0, n as int) =~= s@);
    r
}

} // verus!
