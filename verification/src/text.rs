//! Character-level text model: whitespace, trimming, word splitting,
//! separator splitting, joining and case mapping over `Seq<char>`.

use vstd::prelude::*;

verus! {

// ---------------------------------------------------------------------------
// Specifications
// ---------------------------------------------------------------------------

/// Unicode `White_Space` (the set `char::is_whitespace` tests).
pub open spec fn is_ws(c: char) -> bool {
    ||| ('\u{9}' <= c && c <= '\u{d}')
    ||| c == ' '
    ||| c == '\u{85}'
    ||| c == '\u{a0}'
    ||| c == '\u{1680}'
    ||| ('\u{2000}' <= c && c <= '\u{200a}')
    ||| c == '\u{2028}'
    ||| c == '\u{2029}'
    ||| c == '\u{202f}'
    ||| c == '\u{205f}'
    ||| c == '\u{3000}'
}

/// `s` without its leading whitespace.
pub open spec fn trim_start(s: Seq<char>) -> Seq<char>
    decreases s.len(),
{
    if s.len() > 0 && is_ws(s[0]) {
        trim_start(s.drop_first())
    } else {
        s
    }
}

/// `s` without its trailing whitespace.
pub open spec fn trim_end(s: Seq<char>) -> Seq<char>
    decreases s.len(),
{
    if s.len() > 0 && is_ws(s.last()) {
        trim_end(s.drop_last())
    } else {
        s
    }
}

/// `str::trim`: both ends stripped of whitespace.
pub open spec fn trim(s: Seq<char>) -> Seq<char> {
    trim_end(trim_start(s))
}

/// Number of leading characters of `s` that are not whitespace.
pub open spec fn word_len(s: Seq<char>) -> nat
    decreases s.len(),
{
    if s.len() == 0 || is_ws(s[0]) {
        0
    } else {
        1 + word_len(s.drop_first())
    }
}

/// `str::split_whitespace`: the maximal runs of non-whitespace characters, in order.
pub open spec fn words(s: Seq<char>) -> Seq<Seq<char>>
    decreases s.len(),
{
    if s.len() == 0 {
        seq![]
    } else if is_ws(s[0]) {
        words(s.drop_first())
    } else {
        let n = word_len(s);
        if 0 < n <= s.len() {
            seq![s.take(n as int)] + words(s.skip(n as int))
        } else {
            seq![]
        }
    }
}

/// `str::split` with a non-empty string pattern: pieces between the
/// non-overlapping occurrences of `sep`, taken from the left.
pub open spec fn split_on(s: Seq<char>, sep: Seq<char>) -> Seq<Seq<char>>
    recommends
        sep.len() > 0,
    decreases s.len(),
{
    if sep.len() == 0 || s.len() < sep.len() {
        seq![s]
    } else if s.take(sep.len() as int) == sep {
        seq![Seq::<char>::empty()] + split_on(s.skip(sep.len() as int), sep)
    } else {
        let rest = split_on(s.drop_first(), sep);
        seq![seq![s[0]] + rest[0]] + rest.drop_first()
    }
}

/// The pieces joined with `sep` between neighbours (`[T]::join`).
pub open spec fn join(parts: Seq<Seq<char>>, sep: Seq<char>) -> Seq<char>
    decreases parts.len(),
{
    if parts.len() == 0 {
        Seq::empty()
    } else if parts.len() == 1 {
        parts[0]
    } else {
        join(parts.drop_last(), sep) + sep + parts.last()
    }
}

/// `str::ends_with` for a string pattern.
pub open spec fn ends_with(s: Seq<char>, suffix: Seq<char>) -> bool {
    suffix.len() <= s.len() && s.subrange(s.len() - suffix.len(), s.len() as int) == suffix
}

/// Index of the first occurrence of `c` in `s`.
pub open spec fn first_index_of(s: Seq<char>, c: char) -> Option<int> {
    if exists|k: int| 0 <= k < s.len() && s[k] == c {
        Some(
            choose|k: int|
                0 <= k < s.len() && s[k] == c && forall|j: int| 0 <= j < k ==> s[j] != c,
        )
    } else {
        None
    }
}

/// Decimal digit `d` (0 to 9) as a character.
pub open spec fn digit_char(d: int) -> char {
    if d == 0 {
        '0'
    } else if d == 1 {
        '1'
    } else if d == 2 {
        '2'
    } else if d == 3 {
        '3'
    } else if d == 4 {
        '4'
    } else if d == 5 {
        '5'
    } else if d == 6 {
        '6'
    } else if d == 7 {
        '7'
    } else if d == 8 {
        '8'
    } else {
        '9'
    }
}

/// Decimal digits of `n`, most significant first, no leading zeros.
pub open spec fn digits(n: nat) -> Seq<char>
    decreases n,
{
    if n < 10 {
        seq![digit_char(n as int)]
    } else {
        digits(n / 10).push(digit_char((n % 10) as int))
    }
}

/// Decimal representation of an integer (`Display` of the integer types).
pub open spec fn decimal(n: int) -> Seq<char> {
    if n < 0 {
        seq!['-'] + digits((-n) as nat)
    } else {
        digits(n as nat)
    }
}

/// `c` is an ASCII decimal digit.
pub open spec fn is_digit(c: char) -> bool {
    '0' <= c && c <= '9'
}

/// Every character of `s` is an ASCII decimal digit.
pub open spec fn all_digits(s: Seq<char>) -> bool {
    forall|i: int| 0 <= i < s.len() ==> is_digit(#[trigger] s[i])
}

/// Value of a run of decimal digits, most significant first.
pub open spec fn digits_value(s: Seq<char>) -> int
    decreases s.len(),
{
    if s.len() == 0 {
        0
    } else {
        10 * digits_value(s.drop_last()) + (s.last() as int - '0' as int)
    }
}

/// Sign and digits of an integer literal: whether a leading `-` is present,
/// and the text after an optional leading `-` or `+`.
pub open spec fn signed_digits(s: Seq<char>) -> (bool, Seq<char>) {
    if s.len() > 0 && s[0] == '-' {
        (true, s.drop_first())
    } else if s.len() > 0 && s[0] == '+' {
        (false, s.drop_first())
    } else {
        (false, s)
    }
}

/// What `i32::from_str` reads from `s`: an optional sign followed by at
/// least one digit and nothing else, with the value in range.
pub open spec fn parsed_i32(s: Seq<char>) -> Option<i32> {
    let (negative, body) = signed_digits(s);
    let v = if negative {
        -digits_value(body)
    } else {
        digits_value(body)
    };
    if body.len() > 0 && all_digits(body) && i32::MIN <= v <= i32::MAX {
        Some(v as i32)
    } else {
        None
    }
}

/// `w` is one of the words of `list`.
pub open spec fn listed(list: Seq<&'static str>, w: Seq<char>) -> bool {
    exists|i: int| 0 <= i < list.len() && list[i]@ == w
}

/// What `Debug` formatting of a `str` produces for these characters.
pub uninterp spec fn debug_quoted(s: Seq<char>) -> Seq<char>;

/// What `str::to_lowercase` returns for a string with these characters.
pub uninterp spec fn lowercase(s: Seq<char>) -> Seq<char>;

/// What `str::to_uppercase` returns for a string with these characters.
pub uninterp spec fn uppercase(s: Seq<char>) -> Seq<char>;

// ---------------------------------------------------------------------------
// Lemmas
// ---------------------------------------------------------------------------

pub proof fn lemma_split_on_nonempty(s: Seq<char>, sep: Seq<char>)
    ensures
        split_on(s, sep).len() >= 1,
    decreases s.len(),
{
    if sep.len() == 0 || s.len() < sep.len() {
    } else if s.take(sep.len() as int) == sep {
        lemma_split_on_nonempty(s.skip(sep.len() as int), sep);
    } else {
        lemma_split_on_nonempty(s.drop_first(), sep);
    }
}

proof fn lemma_word_len_bound(s: Seq<char>)
    ensures
        word_len(s) <= s.len(),
        forall|i: int| 0 <= i < word_len(s) ==> !is_ws(#[trigger] s[i]),
        word_len(s) < s.len() ==> is_ws(s[word_len(s) as int]),
    decreases s.len(),
{
    if s.len() == 0 || is_ws(s[0]) {
    } else {
        lemma_word_len_bound(s.drop_first());
        assert forall|i: int| 0 <= i < word_len(s) implies !is_ws(#[trigger] s[i]) by {
            if i > 0 {
                assert(s[i] == s.drop_first()[i - 1]);
            }
        }
    }
}

/// A run of `n` non-whitespace characters ended by whitespace or the end is
/// exactly the first word.
proof fn lemma_word_len_exact(s: Seq<char>, n: int)
    requires
        0 <= n <= s.len(),
        forall|i: int| 0 <= i < n ==> !is_ws(#[trigger] s[i]),
        n == s.len() || is_ws(s[n]),
    ensures
        word_len(s) == n,
    decreases n,
{
    if n == 0 {
    } else {
        let t = s.drop_first();
        assert forall|i: int| 0 <= i < n - 1 implies !is_ws(#[trigger] t[i]) by {
            assert(t[i] == s[i + 1]);
        }
        if n < s.len() {
            assert(t[n - 1] == s[n]);
        }
        lemma_word_len_exact(t, n - 1);
    }
}

/// A text in which `sep` never occurs is a single piece.
pub proof fn lemma_split_on_absent(s: Seq<char>, sep: Seq<char>)
    requires
        sep.len() > 0,
        forall|i: int|
            0 <= i && i + sep.len() <= s.len() ==> #[trigger] s.subrange(i, i + sep.len()) != sep,
    ensures
        split_on(s, sep) == seq![s],
    decreases s.len(),
{
    if s.len() < sep.len() {
    } else {
        assert(s.subrange(0, 0 + sep.len() as int) != sep);
        assert(s.take(sep.len() as int) =~= s.subrange(0, 0 + sep.len() as int));
        let t = s.drop_first();
        assert forall|i: int| 0 <= i && i + sep.len() <= t.len() implies #[trigger] t.subrange(
            i,
            i + sep.len(),
        ) != sep by {
            assert(t.subrange(i, i + sep.len()) =~= s.subrange(i + 1, i + 1 + sep.len()));
        }
        lemma_split_on_absent(t, sep);
        let rest = split_on(t, sep);
        assert(split_on(s, sep) == seq![seq![s[0]] + rest[0]] + rest.drop_first());
        assert(seq![s[0]] + t =~= s);
        assert(seq![seq![s[0]] + rest[0]] + rest.drop_first() =~= seq![s]);
    }
}

/// The value of digits never falls when more digits follow.
pub proof fn lemma_digits_value_grows(s: Seq<char>, k: int)
    requires
        0 <= k <= s.len(),
        all_digits(s),
    ensures
        0 <= digits_value(s.take(k)) <= digits_value(s),
    decreases s.len(),
{
    if s.len() == 0 {
        assert(s.take(k) =~= s);
    } else {
        let init = s.drop_last();
        assert(all_digits(init)) by {
            assert forall|i: int| 0 <= i < init.len() implies is_digit(#[trigger] init[i]) by {
                assert(init[i] == s[i]);
            }
        }
        assert(is_digit(s[s.len() - 1]));
        if k == s.len() {
            assert(s.take(k) =~= s);
            lemma_digits_value_grows(init, init.len() as int);
            assert(init.take(init.len() as int) =~= init);
        } else {
            lemma_digits_value_grows(init, k);
            assert(init.take(k) =~= s.take(k));
            lemma_digits_value_grows(init, init.len() as int);
            assert(init.take(init.len() as int) =~= init);
        }
    }
}

/// The last piece of `a + c + b` split on `c` is the last piece of `b`.
pub proof fn lemma_split_on_last_piece(a: Seq<char>, c: char, b: Seq<char>)
    ensures
        split_on(a + seq![c] + b, seq![c]).len() >= 2,
        split_on(a + seq![c] + b, seq![c]).last() == split_on(b, seq![c]).last(),
    decreases a.len(),
{
    let sep = seq![c];
    let s = a + sep + b;
    lemma_split_on_nonempty(b, sep);
    if a.len() == 0 {
        assert(s.take(1) =~= sep);
        assert(s.skip(1) =~= b);
    } else if a[0] == c {
        assert(s.take(1) =~= sep);
        assert(s.skip(1) =~= a.drop_first() + sep + b);
        lemma_split_on_last_piece(a.drop_first(), c, b);
    } else {
        assert(s.take(1) != sep) by {
            assert(s.take(1)[0] == a[0]);
        }
        assert(s.drop_first() =~= a.drop_first() + sep + b);
        lemma_split_on_last_piece(a.drop_first(), c, b);
    }
}

proof fn lemma_join_push(parts: Seq<Seq<char>>, sep: Seq<char>, p: Seq<char>)
    ensures
        join(parts.push(p), sep) == if parts.len() == 0 {
            p
        } else {
            join(parts, sep) + sep + p
        },
{
    assert(parts.push(p).drop_last() =~= parts);
}

// ---------------------------------------------------------------------------
// Trusted case mapping (std)
// ---------------------------------------------------------------------------

/// Calls `str::to_lowercase`. The contract only names the result: it is the
/// value of `lowercase` on the characters of `s` (Unicode case mapping is not
/// restated here).
#[verifier::external_body]
pub fn to_lower(s: &str) -> (r: String)
    ensures
        r@ == lowercase(s@),
{
    s.to_lowercase()
}

/// Calls `str::to_uppercase`. The contract only names the result: it is the
/// value of `uppercase` on the characters of `s`.
#[verifier::external_body]
pub fn to_upper(s: &str) -> (r: String)
    ensures
        r@ == uppercase(s@),
{
    s.to_uppercase()
}

// ---------------------------------------------------------------------------
// Executable helpers
// ---------------------------------------------------------------------------

/// Formats `s` with `{:?}` (`Debug` of `str`: quoted and escaped). The
/// contract only names the result (`debug_quoted`).
#[verifier::external_body]
pub fn debug_str(s: &str) -> (r: String)
    ensures
        r@ == debug_quoted(s@),
{
    format!("{s:?}")
}

fn digit_str(d: u64) -> (r: &'static str)
    requires
        d < 10,
    ensures
        r@ == seq![digit_char(d as int)],
{
    proof {
        reveal_strlit("0");
        reveal_strlit("1");
        reveal_strlit("2");
        reveal_strlit("3");
        reveal_strlit("4");
        reveal_strlit("5");
        reveal_strlit("6");
        reveal_strlit("7");
        reveal_strlit("8");
        reveal_strlit("9");
    }
    match d {
        0 => "0",
        1 => "1",
        2 => "2",
        3 => "3",
        4 => "4",
        5 => "5",
        6 => "6",
        7 => "7",
        8 => "8",
        _ => "9",
    }
}

pub(crate) fn push_digits(s: &mut String, n: u64)
    ensures
        final(s)@ == old(s)@ + digits(n as nat),
    decreases n,
{
    if n >= 10 {
        push_digits(s, n / 10);
    }
    s.append(digit_str(n % 10));
}

/// Reads an integer as `i32::from_str` does (see `parsed_i32`).
pub fn parse_i32(s: &str) -> (r: Option<i32>)
    ensures
        r == parsed_i32(s@),
{
    let n = s.unicode_len();
    let mut negative = false;
    let mut start: usize = 0;
    if n > 0 {
        let c = s.get_char(0);
        if c == '-' {
            negative = true;
            start = 1;
        } else if c == '+' {
            start = 1;
        }
    }
    let ghost body = s@.skip(start as int);
    assert(signed_digits(s@) == (negative, body)) by {
        if n > 0 {
            assert(s@.drop_first() =~= s@.skip(1));
        }
        assert(s@.skip(0) =~= s@);
    }
    if start == n {
        return None;
    }
    let mut acc: i64 = 0;
    let mut i: usize = start;
    while i < n
        invariant
            n == s@.len(),
            start <= i <= n,
            body == s@.skip(start as int),
            signed_digits(s@) == (negative, body),
            acc == digits_value(body.take(i - start)),
            all_digits(body.take(i - start)),
            0 <= acc <= 2147483648,
        decreases n - i,
    {
        let c = s.get_char(i);
        proof {
            assert(body[i - start] == s@[i as int]);
            assert(body.take(i - start + 1).drop_last() =~= body.take(i - start));
            assert(body.take(i - start + 1).last() == c);
        }
        if !('0' <= c && c <= '9') {
            proof {
                assert(!is_digit(body[i - start]));
            }
            return None;
        }
        let d: i64 = (c as u32 - '0' as u32) as i64;
        acc = acc * 10 + d;
        proof {
            assert(all_digits(body.take(i - start + 1))) by {
                assert forall|j: int| 0 <= j < i - start + 1 implies is_digit(
                    #[trigger] body.take(i - start + 1)[j],
                ) by {
                    if j < i - start {
                        assert(body.take(i - start + 1)[j] == body.take(i - start)[j]);
                    }
                }
            }
        }
        if acc > 2147483648 {
            proof {
                if all_digits(body) {
                    lemma_digits_value_grows(body, i - start + 1);
                }
            }
            return None;
        }
        i = i + 1;
    }
    assert(body.take(n - start) =~= body);
    let v: i64 = if negative {
        -acc
    } else {
        acc
    };
    if v < -2147483648 || v > 2147483647 {
        None
    } else {
        Some(v as i32)
    }
}

/// Is `w` one of the words of `list`?
pub fn list_contains(list: &[&'static str], w: &str) -> (r: bool)
    ensures
        r == listed(list@, w@),
{
    let mut i: usize = 0;
    while i < list.len()
        invariant
            i <= list@.len(),
            forall|j: int| 0 <= j < i ==> list@[j]@ != w@,
        decreases list@.len() - i,
    {
        if str_eq(list[i], w) {
            return true;
        }
        i = i + 1;
    }
    false
}

/// Decimal representation of `n` (what `Display` prints).
pub fn int_to_string(n: i32) -> (r: String)
    ensures
        r@ == decimal(n as int),
{
    let mut s = String::new();
    if n < 0 {
        proof {
            reveal_strlit("-");
        }
        s.append("-");
        let m: i64 = n as i64;
        push_digits(&mut s, (-m) as u64);
    } else {
        push_digits(&mut s, n as u64);
    }
    s
}

/// Finds the first occurrence of `c` in `s`.
pub fn find_char(s: &str, c: char) -> (r: Option<usize>)
    ensures
        match r {
            Some(k) => k < s@.len() && first_index_of(s@, c) == Some(k as int),
            None => first_index_of(s@, c) is None,
        },
{
    let n = s.unicode_len();
    let mut i: usize = 0;
    while i < n
        invariant
            n == s@.len(),
            i <= n,
            forall|j: int| 0 <= j < i ==> s@[j] != c,
        decreases n - i,
    {
        if s.get_char(i) == c {
            let ghost k = choose|k: int|
                0 <= k < s@.len() && s@[k] == c && forall|j: int| 0 <= j < k ==> s@[j] != c;
            assert(0 <= i < s@.len() && s@[i as int] == c && forall|j: int|
                0 <= j < i ==> s@[j] != c);
            assert(k == i) by {
                if k < i {
                    assert(s@[k] != c);
                } else if k > i {
                    assert(s@[i as int] != c);
                }
            }
            return Some(i);
        }
        i = i + 1;
    }
    None
}

/// `char::is_whitespace`.
pub fn is_whitespace(c: char) -> (r: bool)
    ensures
        r == is_ws(c),
{
    ('\u{9}' <= c && c <= '\u{d}') || c == ' ' || c == '\u{85}' || c == '\u{a0}' || c
        == '\u{1680}' || ('\u{2000}' <= c && c <= '\u{200a}') || c == '\u{2028}' || c
        == '\u{2029}' || c == '\u{202f}' || c == '\u{205f}' || c == '\u{3000}'
}

/// Character-wise equality of two strings.
pub fn str_eq(a: &str, b: &str) -> (r: bool)
    ensures
        r == (a@ == b@),
{
    let n = a.unicode_len();
    let m = b.unicode_len();
    if n != m {
        return false;
    }
    let mut i: usize = 0;
    while i < n
        invariant
            n == a@.len(),
            m == b@.len(),
            n == m,
            i <= n,
            forall|j: int| 0 <= j < i ==> a@[j] == b@[j],
        decreases n - i,
    {
        if a.get_char(i) != b.get_char(i) {
            return false;
        }
        i = i + 1;
    }
    assert(a@ =~= b@);
    true
}

/// `str::ends_with` for a string pattern.
pub fn str_ends_with(s: &str, suffix: &str) -> (r: bool)
    ensures
        r == ends_with(s@, suffix@),
{
    let n = s.unicode_len();
    let m = suffix.unicode_len();
    if m > n {
        return false;
    }
    let off = n - m;
    let mut i: usize = 0;
    while i < m
        invariant
            n == s@.len(),
            m == suffix@.len(),
            m <= n,
            off == n - m,
            i <= m,
            forall|j: int| 0 <= j < i ==> s@[off + j] == suffix@[j],
        decreases m - i,
    {
        if s.get_char(off + i) != suffix.get_char(i) {
            assert(s@.subrange(off as int, n as int)[i as int] != suffix@[i as int]);
            return false;
        }
        i = i + 1;
    }
    assert(s@.subrange(off as int, n as int) =~= suffix@);
    true
}

/// `str::trim`.
pub fn trim_str(s: &str) -> (r: String)
    ensures
        r@ == trim(s@),
{
    let n = s.unicode_len();
    let mut i: usize = 0;
    assert(s@.skip(0) =~= s@);
    while i < n && is_whitespace(s.get_char(i))
        invariant
            n == s@.len(),
            i <= n,
            trim_start(s@) == trim_start(s@.skip(i as int)),
        decreases n - i,
    {
        assert(s@.skip(i as int)[0] == s@[i as int]);
        assert(s@.skip(i as int).drop_first() =~= s@.skip(i + 1));
        i = i + 1;
    }
    if i < n {
        assert(s@.skip(i as int)[0] == s@[i as int]);
    }
    assert(trim_start(s@.skip(i as int)) == s@.skip(i as int));
    let mut j: usize = n;
    while j > i && is_whitespace(s.get_char(j - 1))
        invariant
            n == s@.len(),
            i <= j <= n,
            trim_end(s@.skip(i as int)) == trim_end(s@.subrange(i as int, j as int)),
        decreases j,
    {
        assert(s@.subrange(i as int, j as int).last() == s@[j - 1]);
        assert(s@.subrange(i as int, j as int).drop_last() =~= s@.subrange(i as int, j - 1));
        j = j - 1;
    }
    assert(s@.skip(i as int) =~= s@.subrange(i as int, n as int));
    let piece = s.substring_char(i, j);
    piece.to_owned()
}

/// `str::split_whitespace`, collected as slices of `s`.
pub fn word_slices<'a>(s: &'a str) -> (r: Vec<&'a str>)
    ensures
        r.deep_view() == words(s@),
{
    let n = s.unicode_len();
    let mut out: Vec<&'a str> = Vec::new();
    let mut i: usize = 0;
    assert(s@.skip(0) =~= s@);
    while i < n
        invariant
            n == s@.len(),
            i <= n,
            words(s@) == out.deep_view() + words(s@.skip(i as int)),
        decreases n - i,
    {
        if is_whitespace(s.get_char(i)) {
            assert(s@.skip(i as int).drop_first() =~= s@.skip(i + 1));
            i = i + 1;
        } else {
            let start = i;
            while i < n && !is_whitespace(s.get_char(i))
                invariant
                    n == s@.len(),
                    start <= i <= n,
                    forall|j: int| start <= j < i ==> !is_ws(#[trigger] s@[j]),
                decreases n - i,
            {
                i = i + 1;
            }
            let ghost rest = s@.skip(start as int);
            proof {
                assert forall|j: int| 0 <= j < i - start implies !is_ws(#[trigger] rest[j]) by {
                    assert(rest[j] == s@[start + j]);
                }
                if i < n {
                    assert(rest[i - start] == s@[i as int]);
                }
                lemma_word_len_exact(rest, i - start);
                assert(rest.take(i - start) =~= s@.subrange(start as int, i as int));
                assert(rest.skip(i - start) =~= s@.skip(i as int));
            }
            let w = s.substring_char(start, i);
            let ghost before = out.deep_view();
            out.push(w);
            proof {
                assert(out.deep_view() =~= before.push(s@.subrange(start as int, i as int)));
                assert(words(s@.skip(start as int)) == seq![s@.subrange(start as int, i as int)]
                    + words(s@.skip(i as int)));
                assert(words(s@) =~= out.deep_view() + words(s@.skip(i as int)));
            }
        }
    }
    assert(s@.skip(n as int) =~= Seq::<char>::empty());
    assert(words(s@) =~= out.deep_view());
    out
}

/// The slices as owned strings.
pub fn to_owned_all(v: &Vec<&str>) -> (r: Vec<String>)
    ensures
        r.deep_view() == v.deep_view(),
{
    let mut out: Vec<String> = Vec::new();
    let mut i: usize = 0;
    while i < v.len()
        invariant
            i <= v.len(),
            out.deep_view() =~= v.deep_view().take(i as int),
        decreases v.len() - i,
    {
        let ghost before = out.deep_view();
        out.push(v[i].to_owned());
        assert(out.deep_view() =~= before.push(v.deep_view()[i as int]));
        assert(v.deep_view().take(i + 1) =~= v.deep_view().take(i as int).push(v.deep_view()[i as int]));
        i = i + 1;
    }
    assert(v.deep_view().take(v.len() as int) =~= v.deep_view());
    out
}

/// `str::split_whitespace`, collected as owned strings.
pub fn split_words(s: &str) -> (r: Vec<String>)
    ensures
        r.deep_view() == words(s@),
{
    let slices = word_slices(s);
    to_owned_all(&slices)
}

/// `str::split` with a string separator, collected.
pub fn split_str(s: &str, sep: &str) -> (r: Vec<String>)
    requires
        sep@.len() > 0,
    ensures
        r.deep_view() == split_on(s@, sep@),
{
    let n = s.unicode_len();
    let m = sep.unicode_len();
    let mut out: Vec<String> = Vec::new();
    let mut start: usize = 0;
    let mut i: usize = 0;
    assert(s@.skip(0) =~= s@);
    proof {
        lemma_split_on_nonempty(s@, sep@);
        assert(s@.subrange(0, 0) =~= Seq::<char>::empty());
    }
    while i < n
        invariant
            n == s@.len(),
            m == sep@.len(),
            m > 0,
            start <= i <= n,
            split_on(s@.skip(i as int), sep@).len() >= 1,
            split_on(s@, sep@) == out.deep_view() + seq![
                s@.subrange(start as int, i as int) + split_on(s@.skip(i as int), sep@)[0],
            ] + split_on(s@.skip(i as int), sep@).drop_first(),
        decreases n - i,
    {
        let ghost tail = s@.skip(i as int);
        let mut matched = false;
        if n - i >= m {
            let mut k: usize = 0;
            let mut ok = true;
            while k < m && ok
                invariant
                    n == s@.len(),
                    m == sep@.len(),
                    i + m <= n,
                    k <= m,
                    tail == s@.skip(i as int),
                    forall|j: int| 0 <= j < k ==> s@[i + j] == sep@[j],
                    !ok ==> k < m && s@[i + k] != sep@[k as int],
                decreases m - k + (if ok { 1int } else { 0int }),
            {
                if s.get_char(i + k) != sep.get_char(k) {
                    ok = false;
                } else {
                    k = k + 1;
                }
            }
            matched = ok;
            proof {
                if ok {
                    assert forall|j: int| 0 <= j < m implies tail.take(m as int)[j] == sep@[j] by {
                        assert(tail.take(m as int)[j] == s@[i + j]);
                    }
                    assert(tail.take(m as int) =~= sep@);
                } else {
                    assert(tail.take(m as int)[k as int] == s@[i + k]);
                    assert(tail.take(m as int) != sep@);
                }
            }
        }
        if matched {
            proof {
                assert(tail.skip(m as int) =~= s@.skip(i + m));
                lemma_split_on_nonempty(s@.skip(i + m), sep@);
            }
            let piece = s.substring_char(start, i).to_owned();
            let ghost before = out.deep_view();
            out.push(piece);
            proof {
                assert(out.deep_view() =~= before.push(s@.subrange(start as int, i as int)));
                let sp = split_on(tail, sep@);
                let spr = split_on(s@.skip(i + m), sep@);
                assert(sp == seq![Seq::<char>::empty()] + spr);
                assert(sp[0] =~= Seq::<char>::empty());
                assert(sp.drop_first() =~= spr);
                assert(s@.subrange(start as int, i as int) + sp[0] =~= s@.subrange(
                    start as int,
                    i as int,
                ));
                assert(s@.subrange(i + m, i + m) + spr[0] =~= spr[0]);
                assert(spr =~= seq![spr[0]] + spr.drop_first());
                assert(split_on(s@, sep@) =~= out.deep_view() + seq![
                    s@.subrange(i + m, i + m) + spr[0],
                ] + spr.drop_first());
            }
            i = i + m;
            start = i;
        } else {
            proof {
                assert(tail.drop_first() =~= s@.skip(i + 1));
                lemma_split_on_nonempty(s@.skip(i + 1), sep@);
                let sp = split_on(tail, sep@);
                let spr = split_on(s@.skip(i + 1), sep@);
                assert(tail[0] == s@[i as int]);
                if tail.len() < m {
                    assert(sp == seq![tail]);
                    assert(spr == seq![tail.drop_first()]);
                    assert(seq![tail[0]] + tail.drop_first() =~= tail);
                    assert(sp[0] =~= seq![s@[i as int]] + spr[0]);
                    assert(sp.drop_first() =~= spr.drop_first());
                } else {
                    assert(tail.take(m as int) != sep@);
                    assert(sp == seq![seq![tail[0]] + spr[0]] + spr.drop_first());
                    assert(sp[0] =~= seq![s@[i as int]] + spr[0]);
                    assert(sp.drop_first() =~= spr.drop_first());
                }
                assert(s@.subrange(start as int, i as int) + sp[0] =~= s@.subrange(
                    start as int,
                    i + 1,
                ) + spr[0]);
            }
            i = i + 1;
        }
    }
    let piece = s.substring_char(start, n).to_owned();
    let ghost before = out.deep_view();
    out.push(piece);
    proof {
        assert(s@.skip(n as int) =~= Seq::<char>::empty());
        let sp = split_on(s@.skip(n as int), sep@);
        assert(sp =~= seq![Seq::<char>::empty()]);
        assert(s@.subrange(start as int, n as int) + sp[0] =~= s@.subrange(
            start as int,
            n as int,
        ));
        assert(out.deep_view() =~= before.push(s@.subrange(start as int, n as int)));
        assert(split_on(s@, sep@) =~= out.deep_view());
    }
    out
}

/// `[String]::join(sep)`.
pub fn join_strings(parts: &Vec<String>, sep: &str) -> (r: String)
    ensures
        r@ == join(parts.deep_view(), sep@),
{
    let mut r = String::new();
    let mut i: usize = 0;
    while i < parts.len()
        invariant
            i <= parts.len(),
            r@ == join(parts.deep_view().take(i as int), sep@),
        decreases parts.len() - i,
    {
        proof {
            assert(parts.deep_view().take(i + 1) =~= parts.deep_view().take(i as int).push(
                parts[i as int]@,
            ));
            lemma_join_push(parts.deep_view().take(i as int), sep@, parts[i as int]@);
        }
        if i > 0 {
            r.append(sep);
        }
        r.append(parts[i].as_str());
        i = i + 1;
    }
    assert(parts.deep_view().take(parts.len() as int) =~= parts.deep_view());
    r
}

} // verus!
