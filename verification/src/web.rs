//! The HTTP API as pure functions: query decoding, parameter parsing and
//! routing of a `GET` request to a response.
//!
//! Routes: `/health`, `/decline`, `/gender`, `/cases`, `/api/v1/decline`,
//! `/api/v1/gender`, `/appoint`, `/api/v1/appoint`.

use vstd::prelude::*;
use vstd::utf8::{
    decode_utf8, encode_scalar, encode_utf8, encode_utf8_decode_utf8, encode_utf8_valid_utf8,
    valid_utf8,
};

use crate::adapter::{declined_fio, padeg_case};
use crate::appointment::{decline_full_appointment, decline_appointment, decline_text, spec_merge};
use crate::gender::{detect_gender, opt_view, spec_detect_gender, Gender};
use crate::inflect::{inflect_opt, spec_inflect_opt, Case, NamePart};
use crate::text::{
    debug_quoted, debug_str, decimal, digit_char, digits, find_char, first_index_of, join, join_strings,
    lemma_split_on_nonempty, lowercase, push_digits, split_on, split_str, str_eq, to_lower, trim,
    trim_str, word_slices, words,
};

verus! {

/// Order of `/cases`: the nominative first, then the five cases.
pub open spec fn case_order() -> Seq<Option<Case>> {
    seq![
        None,
        Some(Case::Genitive),
        Some(Case::Dative),
        Some(Case::Accusative),
        Some(Case::Instrumental),
        Some(Case::Prepositional),
    ]
}

/// The `i`-th entry of `case_order`.
pub fn case_at(i: usize) -> (r: Option<Case>)
    requires
        i < 6,
    ensures
        r == case_order()[i as int],
{
    match i {
        0 => None,
        1 => Some(Case::Genitive),
        2 => Some(Case::Dative),
        3 => Some(Case::Accusative),
        4 => Some(Case::Instrumental),
        _ => Some(Case::Prepositional),
    }
}

/// English names of the six cases, in `case_order`.
pub const CASE_NAMES: [&'static str; 6] = [
    "nominative",
    "genitive",
    "dative",
    "accusative",
    "instrumental",
    "prepositional",
];

// ---------------------------------------------------------------------------
// Percent-decoding
// ---------------------------------------------------------------------------

/// Value of an ASCII hexadecimal digit.
pub open spec fn hex_value(b: u8) -> Option<u8> {
    if 48 <= b <= 57 {
        Some((b - 48) as u8)
    } else if 97 <= b <= 102 {
        Some((b - 87) as u8)
    } else if 65 <= b <= 70 {
        Some((b - 55) as u8)
    } else {
        None
    }
}

/// The byte that the two characters after a `%` stand for: both must be
/// hexadecimal digits.
pub open spec fn hex_pair(a: u8, b: u8) -> Option<u8> {
    match (hex_value(a), hex_value(b)) {
        (Some(x), Some(y)) => Some((16 * x + y) as u8),
        _ => None,
    }
}

/// Percent-decoded bytes (`+` is a space); `None` on a bad `%` escape.
pub open spec fn percent_decode(b: Seq<u8>) -> Option<Seq<u8>>
    decreases b.len(),
{
    if b.len() == 0 {
        Some(Seq::empty())
    } else if b[0] == 37 {
        if b.len() < 3 {
            None
        } else {
            match hex_pair(b[1], b[2]) {
                Some(v) => match percent_decode(b.skip(3)) {
                    Some(rest) => Some(seq![v] + rest),
                    None => None,
                },
                None => None,
            }
        }
    } else {
        match percent_decode(b.drop_first()) {
            Some(rest) => Some(seq![if b[0] == 43 { 32u8 } else { b[0] }] + rest),
            None => None,
        }
    }
}

/// URL-decoding of a query fragment: the decoded text, or the error message.
pub open spec fn url_decoded(input: Seq<char>) -> Result<Seq<char>, Seq<char>> {
    match percent_decode(encode_utf8(input)) {
        Some(bytes) => if valid_utf8(bytes) {
            Ok(decode_utf8(bytes))
        } else {
            Err("query is not valid UTF-8"@)
        },
        None => Err("bad percent-encoding"@),
    }
}

/// No byte is `%` or `+`.
pub open spec fn plain_bytes(b: Seq<u8>) -> bool {
    forall|i: int| 0 <= i < b.len() ==> #[trigger] b[i] != 37 && b[i] != 43
}

/// No character is `%` or `+`.
pub open spec fn plain_text(s: Seq<char>) -> bool {
    forall|i: int| 0 <= i < s.len() ==> #[trigger] s[i] != '%' && s[i] != '+'
}

proof fn lemma_percent_decode_plain(b: Seq<u8>)
    requires
        plain_bytes(b),
    ensures
        percent_decode(b) == Some(b),
    decreases b.len(),
{
    if b.len() > 0 {
        lemma_percent_decode_plain(b.drop_first());
        assert(seq![b[0]] + b.drop_first() =~= b);
    }
}

proof fn lemma_high_bytes(x: u8)
    by (bit_vector)
    ensures
        0x80u8 | x >= 0x80u8,
        0xC0u8 | x >= 0x80u8,
        0xE0u8 | x >= 0x80u8,
        0xF0u8 | x >= 0x80u8,
{
}

proof fn lemma_ascii_byte(v: u32)
    by (bit_vector)
    requires
        v <= 0x7F,
    ensures
        (v & 0x7F) as u8 == v,
{
}

proof fn lemma_encode_scalar_plain(c: char)
    requires
        c != '%',
        c != '+',
    ensures
        plain_bytes(encode_scalar(c as u32)),
{
    let v = c as u32;
    let e = encode_scalar(v);
    if v <= 0x7F {
        lemma_ascii_byte(v);
        assert(e[0] == v);
    } else {
        lemma_high_bytes(((v >> 6) & 0x1F) as u8);
        lemma_high_bytes(((v >> 12) & 0x0F) as u8);
        lemma_high_bytes(((v >> 18) & 0x7) as u8);
        lemma_high_bytes((v & 0x3F) as u8);
        lemma_high_bytes(((v >> 6) & 0x3F) as u8);
        lemma_high_bytes(((v >> 12) & 0x3F) as u8);
    }
}

proof fn lemma_encode_plain(s: Seq<char>)
    requires
        plain_text(s),
    ensures
        plain_bytes(encode_utf8(s)),
    decreases s.len(),
{
    if s.len() > 0 {
        assert(s[0] != '%' && s[0] != '+');
        lemma_encode_scalar_plain(s[0]);
        assert(plain_text(s.drop_first())) by {
            assert forall|i: int| 0 <= i < s.drop_first().len() implies #[trigger] s.drop_first()[i]
                != '%' && s.drop_first()[i] != '+' by {
                assert(s.drop_first()[i] == s[i + 1]);
            }
        }
        lemma_encode_plain(s.drop_first());
        let a = encode_scalar(s[0] as u32);
        let b = encode_utf8(s.drop_first());
        assert forall|i: int| 0 <= i < (a + b).len() implies #[trigger] (a + b)[i] != 37 && (a
            + b)[i] != 43 by {
            if i < a.len() {
                assert((a + b)[i] == a[i]);
            } else {
                assert((a + b)[i] == b[i - a.len()]);
            }
        }
    }
}

/// Text without `%` and `+` decodes to itself.
pub proof fn law_plain_text_decodes_to_itself(s: Seq<char>)
    requires
        plain_text(s),
    ensures
        url_decoded(s) == Ok::<Seq<char>, Seq<char>>(s),
{
    lemma_encode_plain(s);
    lemma_percent_decode_plain(encode_utf8(s));
    encode_utf8_valid_utf8(s);
    encode_utf8_decode_utf8(s);
}

/// Uppercase hexadecimal digit `d` (0 to 15).
pub open spec fn upper_hex(d: int) -> char {
    if d == 0 {
        '0'
    } else if d == 1 {
        '1'
    } else if d == 2 {
        '2'
    } else if d == 3 {
        '3'
    } else if d == 4 {
        '4'
    } else if d == 5 {
        '5'
    } else if d == 6 {
        '6'
    } else if d == 7 {
        '7'
    } else if d == 8 {
        '8'
    } else if d == 9 {
        '9'
    } else if d == 10 {
        'A'
    } else if d == 11 {
        'B'
    } else if d == 12 {
        'C'
    } else if d == 13 {
        'D'
    } else if d == 14 {
        'E'
    } else {
        'F'
    }
}

/// Every byte written as `%XX` with uppercase hexadecimal digits.
pub open spec fn percent_encoded(b: Seq<u8>) -> Seq<char>
    decreases b.len(),
{
    if b.len() == 0 {
        Seq::empty()
    } else {
        seq!['%', upper_hex((b[0] / 16) as int), upper_hex((b[0] % 16) as int)] + percent_encoded(
            b.drop_first(),
        )
    }
}

proof fn lemma_upper_hex(d: int)
    requires
        0 <= d < 16,
    ensures
        (upper_hex(d) as u32) <= 0x7F,
        hex_value((upper_hex(d) as u32) as u8) == Some(d as u8),
        encode_scalar(upper_hex(d) as u32) == seq![(upper_hex(d) as u32) as u8],
{
    let v = upper_hex(d) as u32;
    lemma_ascii_byte(v);
}

proof fn lemma_percent_encoded_decodes(b: Seq<u8>)
    ensures
        percent_decode(encode_utf8(percent_encoded(b))) == Some(b),
    decreases b.len(),
{
    if b.len() > 0 {
        let hi = (b[0] / 16) as int;
        let lo = (b[0] % 16) as int;
        let rest = percent_encoded(b.drop_first());
        let e = percent_encoded(b);
        lemma_upper_hex(hi);
        lemma_upper_hex(lo);
        lemma_ascii_byte('%' as u32);
        let x1 = (upper_hex(hi) as u32) as u8;
        let x2 = (upper_hex(lo) as u32) as u8;
        assert(e[0] == '%');
        assert(e.drop_first() =~= seq![upper_hex(hi), upper_hex(lo)] + rest);
        assert((seq![upper_hex(hi), upper_hex(lo)] + rest).drop_first() =~= seq![upper_hex(lo)]
            + rest);
        assert((seq![upper_hex(lo)] + rest).drop_first() =~= rest);
        let bytes = encode_utf8(e);
        assert(encode_utf8(seq![upper_hex(lo)] + rest) == seq![x2] + encode_utf8(rest));
        assert(encode_utf8(seq![upper_hex(hi), upper_hex(lo)] + rest) == seq![x1] + (seq![x2]
            + encode_utf8(rest)));
        assert(bytes == seq![37u8] + (seq![x1] + (seq![x2] + encode_utf8(rest))));
        assert(bytes[0] == 37);
        assert(bytes[1] == x1);
        assert(bytes[2] == x2);
        assert(bytes.skip(3) =~= encode_utf8(rest));
        lemma_percent_encoded_decodes(b.drop_first());
        assert(hex_pair(x1, x2) == Some(b[0]));
        assert(seq![b[0]] + b.drop_first() =~= b);
    } else {
        assert(percent_encoded(b) =~= Seq::<char>::empty());
    }
}

/// Decoding the `%XX` encoding of the UTF-8 bytes of a text gives the text back.
pub proof fn law_percent_encoding_round_trip(s: Seq<char>)
    ensures
        url_decoded(percent_encoded(encode_utf8(s))) == Ok::<Seq<char>, Seq<char>>(s),
{
    lemma_percent_encoded_decodes(encode_utf8(s));
    encode_utf8_valid_utf8(s);
    encode_utf8_decode_utf8(s);
}

/// At `i` stands a `%` that is not followed by two hexadecimal digits.
pub open spec fn bad_escape_at(b: Seq<u8>, i: int) -> bool {
    0 <= i < b.len() && b[i] == 37 && !(i + 2 < b.len() && hex_value(b[i + 1]) is Some
        && hex_value(b[i + 2]) is Some)
}

proof fn lemma_percent_decode_fails(b: Seq<u8>)
    ensures
        percent_decode(b) is None <==> exists|i: int| #[trigger] bad_escape_at(b, i),
    decreases b.len(),
{
    if b.len() > 0 {
        if b[0] == 37 {
            if bad_escape_at(b, 0) {
            } else {
                let t = b.skip(3);
                lemma_percent_decode_fails(t);
                assert forall|i: int| #[trigger] bad_escape_at(b, i) implies bad_escape_at(t, i - 3) by {
                    assert(i != 0);
                    assert(i != 1 && i != 2);
                    assert(t[i - 3] == b[i]);
                    if i + 2 < b.len() {
                        assert(t[i - 2] == b[i + 1]);
                        assert(t[i - 1] == b[i + 2]);
                    }
                }
                assert forall|j: int| #[trigger] bad_escape_at(t, j) implies bad_escape_at(b, j + 3) by {
                    assert(t[j] == b[j + 3]);
                    if j + 2 < t.len() {
                        assert(t[j + 1] == b[j + 4]);
                        assert(t[j + 2] == b[j + 5]);
                    }
                }
                if percent_decode(b) is None {
                    let j = choose|j: int| #[trigger] bad_escape_at(t, j);
                    assert(bad_escape_at(b, j + 3));
                }
            }
        } else {
            let t = b.drop_first();
            lemma_percent_decode_fails(t);
            assert forall|i: int| #[trigger] bad_escape_at(b, i) implies bad_escape_at(t, i - 1) by {
                assert(t[i - 1] == b[i]);
                if i + 2 < b.len() {
                    assert(t[i] == b[i + 1]);
                    assert(t[i + 1] == b[i + 2]);
                }
            }
            assert forall|j: int| #[trigger] bad_escape_at(t, j) implies bad_escape_at(b, j + 1) by {
                assert(t[j] == b[j + 1]);
                if j + 2 < t.len() {
                    assert(t[j + 1] == b[j + 2]);
                    assert(t[j + 2] == b[j + 3]);
                }
            }
            if percent_decode(b) is None {
                let j = choose|j: int| #[trigger] bad_escape_at(t, j);
                assert(bad_escape_at(b, j + 1));
            }
        }
    }
}

/// URL-decoding fails exactly when a `%` in the UTF-8 bytes of the input is
/// not followed by two hexadecimal digits, or when the decoded bytes are not
/// valid UTF-8; otherwise it gives the text those bytes encode.
pub proof fn law_url_decode_fails_exactly_on_bad_input(s: Seq<char>)
    ensures
        url_decoded(s) is Err <==> (exists|i: int| #[trigger] bad_escape_at(encode_utf8(s), i))
            || !valid_utf8(percent_decode(encode_utf8(s))->0),
        url_decoded(s) is Ok ==> url_decoded(s)->Ok_0 == decode_utf8(
            percent_decode(encode_utf8(s))->0,
        ),
{
    lemma_percent_decode_fails(encode_utf8(s));
}

/// Calls `String::from_utf8`: `Some` exactly when the bytes are valid UTF-8,
/// with the characters they encode.
#[verifier::external_body]
fn string_from_utf8(bytes: Vec<u8>) -> (r: Option<String>)
    ensures
        match r {
            Some(s) => valid_utf8(bytes@) && s@ == decode_utf8(bytes@),
            None => !valid_utf8(bytes@),
        },
{
    String::from_utf8(bytes).ok()
}

fn hex_digit_value(b: u8) -> (r: Option<u8>)
    ensures
        r == hex_value(b),
{
    if 48 <= b && b <= 57 {
        Some(b - 48)
    } else if 97 <= b && b <= 102 {
        Some(b - 87)
    } else if 65 <= b && b <= 70 {
        Some(b - 55)
    } else {
        None
    }
}

fn decode_hex_pair(a: u8, b: u8) -> (r: Option<u8>)
    ensures
        r == hex_pair(a, b),
{
    match (hex_digit_value(a), hex_digit_value(b)) {
        (Some(x), Some(y)) => Some(16 * x + y),
        _ => None,
    }
}

proof fn lemma_percent_decode_step(b: Seq<u8>, i: int)
    requires
        0 <= i < b.len(),
    ensures
        b.skip(i).drop_first() == b.skip(i + 1),
        i + 3 <= b.len() ==> b.skip(i).skip(3) == b.skip(i + 3),
        b.skip(i)[0] == b[i],
        i + 1 < b.len() ==> b.skip(i)[1] == b[i + 1],
        i + 2 < b.len() ==> b.skip(i)[2] == b[i + 2],
{
    assert(b.skip(i).drop_first() =~= b.skip(i + 1));
    if i + 3 <= b.len() {
        assert(b.skip(i).skip(3) =~= b.skip(i + 3));
    }
}

/// Percent-decodes an `application/x-www-form-urlencoded` fragment (`+` is a
/// space) and reads the bytes as UTF-8.
pub fn url_decode(input: &str) -> (r: Result<String, String>)
    ensures
        match r {
            Ok(s) => url_decoded(input@) == Ok::<Seq<char>, Seq<char>>(s@),
            Err(m) => url_decoded(input@) == Err::<Seq<char>, Seq<char>>(m@),
        },
{
    let bytes = input.as_bytes();
    let ghost b = bytes@;
    assert(b == encode_utf8(input@));
    let mut out: Vec<u8> = Vec::new();
    let mut i: usize = 0;
    assert(b.skip(0) =~= b);
    while i < bytes.len()
        invariant
            b == bytes@,
            b == encode_utf8(input@),
            i <= b.len(),
            percent_decode(b) == match percent_decode(b.skip(i as int)) {
                Some(rest) => Some(out@ + rest),
                None => None::<Seq<u8>>,
            },
        decreases b.len() - i,
    {
        proof {
            lemma_percent_decode_step(b, i as int);
        }
        let c = bytes[i];
        if c == 37 {
            if bytes.len() - i < 3 {
                assert(percent_decode(b.skip(i as int)) is None);
                return Err("bad percent-encoding".to_owned());
            }
            match decode_hex_pair(bytes[i + 1], bytes[i + 2]) {
                Some(v) => {
                    let ghost before = out@;
                    out.push(v);
                    proof {
                        let rest = percent_decode(b.skip(i + 3));
                        if rest is Some {
                            assert(out@ + rest.unwrap() =~= before + (seq![v] + rest.unwrap()));
                        }
                    }
                    i = i + 3;
                },
                None => {
                    assert(percent_decode(b.skip(i as int)) is None);
                    return Err("bad percent-encoding".to_owned());
                },
            }
        } else {
            let ghost before = out@;
            let d = if c == 43 {
                32u8
            } else {
                c
            };
            out.push(d);
            proof {
                let rest = percent_decode(b.skip(i + 1));
                if rest is Some {
                    assert(out@ + rest.unwrap() =~= before + (seq![d] + rest.unwrap()));
                }
            }
            i = i + 1;
        }
    }
    assert(b.skip(i as int) =~= Seq::<u8>::empty());
    assert(out@ + Seq::<u8>::empty() =~= out@);
    match string_from_utf8(out) {
        Some(s) => Ok(s),
        None => Err("query is not valid UTF-8".to_owned()),
    }
}

// ---------------------------------------------------------------------------
// Query parameters
// ---------------------------------------------------------------------------

/// `s` split at its first `c` into what comes before and after it; without
/// a `c` the second part is empty.
pub open spec fn split_at_first(s: Seq<char>, c: char) -> (Seq<char>, Seq<char>) {
    match first_index_of(s, c) {
        Some(k) => (s.take(k), s.skip(k + 1)),
        None => (s, Seq::empty()),
    }
}

/// `key=value` split at the first `=`; without one the value is empty.
pub open spec fn key_value(pair: Seq<char>) -> (Seq<char>, Seq<char>) {
    split_at_first(pair, '=')
}

/// The decoded `(key, value)` pairs of the `&`-separated pieces, in order, or
/// the first decoding error.
pub open spec fn decode_pairs(pieces: Seq<Seq<char>>) -> Result<
    Seq<(Seq<char>, Seq<char>)>,
    Seq<char>,
>
    decreases pieces.len(),
{
    if pieces.len() == 0 {
        Ok(Seq::empty())
    } else {
        let kv = key_value(pieces[0]);
        match url_decoded(kv.0) {
            Err(e) => Err(e),
            Ok(k) => match url_decoded(kv.1) {
                Err(e) => Err(e),
                Ok(v) => match decode_pairs(pieces.drop_first()) {
                    Err(e) => Err(e),
                    Ok(rest) => Ok(seq![(k, v)] + rest),
                },
            },
        }
    }
}

/// The parameters of a query string (empty for an empty query).
pub open spec fn parsed_query(query: Seq<char>) -> Result<Seq<(Seq<char>, Seq<char>)>, Seq<char>> {
    if query.len() == 0 {
        Ok(Seq::empty())
    } else {
        decode_pairs(crate::text::split_on(query, seq!['&']))
    }
}

/// Value of the last parameter named `key` (a later one overrides).
pub open spec fn lookup(params: Seq<(Seq<char>, Seq<char>)>, key: Seq<char>) -> Option<Seq<char>>
    decreases params.len(),
{
    if params.len() == 0 {
        None
    } else if params.last().0 == key {
        Some(params.last().1)
    } else {
        lookup(params.drop_last(), key)
    }
}

/// A parameter, trimmed; absent when missing or blank.
pub open spec fn spec_param(params: Seq<(Seq<char>, Seq<char>)>, key: Seq<char>) -> Option<
    Seq<char>,
> {
    match lookup(params, key) {
        Some(v) => if trim(v).len() > 0 {
            Some(trim(v))
        } else {
            None
        },
        None => None,
    }
}

/// A parameter as given, the empty string when missing.
pub open spec fn raw_param(params: Seq<(Seq<char>, Seq<char>)>, key: Seq<char>) -> Seq<char> {
    match lookup(params, key) {
        Some(v) => v,
        None => Seq::empty(),
    }
}

proof fn lemma_decode_pairs_append(
    pieces: Seq<Seq<char>>,
    i: int,
    acc: Seq<(Seq<char>, Seq<char>)>,
    k: Seq<char>,
    v: Seq<char>,
)
    requires
        0 <= i < pieces.len(),
        url_decoded(key_value(pieces[i]).0) == Ok::<Seq<char>, Seq<char>>(k),
        url_decoded(key_value(pieces[i]).1) == Ok::<Seq<char>, Seq<char>>(v),
    ensures
        match decode_pairs(pieces.skip(i)) {
            Ok(rest) => Ok::<Seq<(Seq<char>, Seq<char>)>, Seq<char>>(acc + rest),
            Err(e) => Err(e),
        } == match decode_pairs(pieces.skip(i + 1)) {
            Ok(rest) => Ok::<Seq<(Seq<char>, Seq<char>)>, Seq<char>>(acc.push((k, v)) + rest),
            Err(e) => Err(e),
        },
{
    assert(pieces.skip(i)[0] == pieces[i]);
    assert(pieces.skip(i).drop_first() =~= pieces.skip(i + 1));
    match decode_pairs(pieces.skip(i + 1)) {
        Ok(rest) => {
            assert(acc + (seq![(k, v)] + rest) =~= acc.push((k, v)) + rest);
        },
        Err(e) => {},
    }
}

/// The decoded text of a result, empty for an error.
pub open spec fn ok_text(r: Result<Seq<char>, Seq<char>>) -> Seq<char> {
    match r {
        Ok(t) => t,
        Err(_) => Seq::empty(),
    }
}

/// The key or the value of a `key=value` piece does not decode.
pub open spec fn piece_fails(piece: Seq<char>) -> bool {
    url_decoded(key_value(piece).0) is Err || url_decoded(key_value(piece).1) is Err
}

/// The decoded key and value of a `key=value` piece.
pub open spec fn decoded_pair(piece: Seq<char>) -> (Seq<char>, Seq<char>) {
    (ok_text(url_decoded(key_value(piece).0)), ok_text(url_decoded(key_value(piece).1)))
}

proof fn lemma_decode_pairs_shape(pieces: Seq<Seq<char>>)
    ensures
        decode_pairs(pieces) is Err <==> exists|i: int|
            0 <= i < pieces.len() && #[trigger] piece_fails(pieces[i]),
        decode_pairs(pieces) is Ok ==> decode_pairs(pieces)->Ok_0.len() == pieces.len() && forall|
            i: int,
        |
            0 <= i < pieces.len() ==> decode_pairs(pieces)->Ok_0[i] == decoded_pair(
                #[trigger] pieces[i],
            ),
    decreases pieces.len(),
{
    if pieces.len() > 0 {
        let tail = pieces.drop_first();
        lemma_decode_pairs_shape(tail);
        if piece_fails(pieces[0]) {
            assert(decode_pairs(pieces) is Err);
        } else {
            assert forall|i: int| 0 < i < pieces.len() implies #[trigger] piece_fails(pieces[i])
                == piece_fails(tail[i - 1]) by {
                assert(pieces[i] == tail[i - 1]);
            }
            if decode_pairs(tail) is Err {
                let j = choose|j: int| 0 <= j < tail.len() && #[trigger] piece_fails(tail[j]);
                assert(pieces[j + 1] == tail[j]);
                assert(piece_fails(pieces[j + 1]));
            } else {
                assert forall|i: int| 0 <= i < pieces.len() implies !#[trigger] piece_fails(
                    pieces[i],
                ) by {
                    if i > 0 {
                        assert(pieces[i] == tail[i - 1]);
                        assert(!piece_fails(tail[i - 1]));
                    }
                }
                let r = decode_pairs(pieces)->Ok_0;
                let rt = decode_pairs(tail)->Ok_0;
                assert(r == seq![decoded_pair(pieces[0])] + rt);
                assert forall|i: int| 0 <= i < pieces.len() implies r[i] == decoded_pair(
                    #[trigger] pieces[i],
                ) by {
                    if i > 0 {
                        assert(pieces[i] == tail[i - 1]);
                        assert(r[i] == rt[i - 1]);
                    }
                }
            }
        }
    }
}

proof fn lemma_lookup_last(params: Seq<(Seq<char>, Seq<char>)>, key: Seq<char>)
    ensures
        lookup(params, key) is None <==> forall|i: int|
            0 <= i < params.len() ==> (#[trigger] params[i]).0 != key,
        lookup(params, key) is Some ==> exists|i: int|
            0 <= i < params.len() && #[trigger] params[i] == (key, lookup(params, key)->0)
                && forall|j: int| i < j < params.len() ==> (#[trigger] params[j]).0 != key,
    decreases params.len(),
{
    if params.len() > 0 {
        let init = params.drop_last();
        let n = params.len() - 1;
        lemma_lookup_last(init, key);
        if params.last().0 == key {
            assert(params[n] == (key, lookup(params, key)->0));
        } else {
            assert forall|i: int| 0 <= i < n implies #[trigger] params[i] == init[i] by {}
            if lookup(init, key) is Some {
                let i = choose|i: int|
                    0 <= i < init.len() && #[trigger] init[i] == (key, lookup(init, key)->0)
                        && forall|j: int| i < j < init.len() ==> (#[trigger] init[j]).0 != key;
                assert(params[i] == init[i]);
                assert forall|j: int| i < j < params.len() implies (#[trigger] params[j]).0
                    != key by {
                    if j < n {
                        assert(params[j] == init[j]);
                    }
                }
            } else {
                assert forall|i: int| 0 <= i < params.len() implies (#[trigger] params[i]).0
                    != key by {
                    if i < n {
                        assert(params[i] == init[i]);
                    }
                }
            }
        }
    }
}

/// A query string is parsed piece by piece (pieces separated by `&`, each
/// split at its first `=`): it fails exactly when some key or value does not
/// decode; otherwise every piece gives its decoded pair, in order, and the
/// value of a key is the one of the last pair with that key.
pub proof fn law_parse_query(query: Seq<char>, key: Seq<char>)
    ensures
        query.len() == 0 ==> parsed_query(query) == Ok::<
            Seq<(Seq<char>, Seq<char>)>,
            Seq<char>,
        >(Seq::empty()),
        query.len() > 0 ==> (parsed_query(query) is Err <==> exists|i: int|
            0 <= i < split_on(query, seq!['&']).len() && #[trigger] piece_fails(
                split_on(query, seq!['&'])[i],
            )),
        query.len() > 0 && parsed_query(query) is Ok ==> ({
            let params = parsed_query(query)->Ok_0;
            let pieces = split_on(query, seq!['&']);
            &&& params.len() == pieces.len()
            &&& forall|i: int|
                0 <= i < pieces.len() ==> params[i] == decoded_pair(#[trigger] pieces[i])
        }),
        parsed_query(query) is Ok ==> ({
            let params = parsed_query(query)->Ok_0;
            &&& lookup(params, key) is None <==> forall|i: int|
                0 <= i < params.len() ==> (#[trigger] params[i]).0 != key
            &&& lookup(params, key) is Some ==> exists|i: int|
                0 <= i < params.len() && #[trigger] params[i] == (key, lookup(params, key)->0)
                    && forall|j: int| i < j < params.len() ==> (#[trigger] params[j]).0 != key
        }),
{
    if query.len() > 0 {
        lemma_decode_pairs_shape(split_on(query, seq!['&']));
    }
    if parsed_query(query) is Ok {
        lemma_lookup_last(parsed_query(query)->Ok_0, key);
    }
}

/// `s` split at its first `c` (see `split_at_first`).
fn split_at_char<'a>(s: &'a str, c: char) -> (r: (&'a str, &'a str))
    ensures
        (r.0@, r.1@) == split_at_first(s@, c),
{
    match find_char(s, c) {
        Some(k) => {
            let len = s.unicode_len();
            let before = s.substring_char(0, k);
            let after = s.substring_char(k + 1, len);
            assert(before@ =~= split_at_first(s@, c).0);
            assert(after@ =~= split_at_first(s@, c).1);
            (before, after)
        },
        None => {
            proof {
                reveal_strlit("");
            }
            (s, "")
        },
    }
}

/// Parses a query string into its parameters, in order of appearance.
pub fn parse_query(query: &str) -> (r: Result<Vec<(String, String)>, String>)
    ensures
        match r {
            Ok(v) => parsed_query(query@) == Ok::<Seq<(Seq<char>, Seq<char>)>, Seq<char>>(
                v.deep_view(),
            ),
            Err(m) => parsed_query(query@) == Err::<Seq<(Seq<char>, Seq<char>)>, Seq<char>>(m@),
        },
{
    let mut map: Vec<(String, String)> = Vec::new();
    if query.is_empty() {
        assert(map.deep_view() =~= Seq::<(Seq<char>, Seq<char>)>::empty());
        return Ok(map);
    }
    proof {
        reveal_strlit("&");
        assert("&"@ =~= seq!['&']);
    }
    let pieces = crate::text::split_str(query, "&");
    let ghost ps = pieces.deep_view();
    let mut i: usize = 0;
    assert(ps.skip(0) =~= ps);
    assert(map.deep_view() + Seq::<(Seq<char>, Seq<char>)>::empty() =~= map.deep_view());
    while i < pieces.len()
        invariant
            i <= pieces.len(),
            ps == pieces.deep_view(),
            ps == crate::text::split_on(query@, seq!['&']),
            query@.len() > 0,
            parsed_query(query@) == match decode_pairs(ps.skip(i as int)) {
                Ok(rest) => Ok::<Seq<(Seq<char>, Seq<char>)>, Seq<char>>(map.deep_view() + rest),
                Err(e) => Err(e),
            },
        decreases pieces.len() - i,
    {
        let pair = pieces[i].as_str();
        assert(ps[i as int] == pair@);
        let (key, value) = split_at_char(pair, '=');
        proof {
            assert(ps.skip(i as int)[0] == ps[i as int]);
            assert(ps.skip(i as int).drop_first() =~= ps.skip(i + 1));
        }
        let k = match url_decode(key) {
            Ok(k) => k,
            Err(e) => return Err(e),
        };
        let v = match url_decode(value) {
            Ok(v) => v,
            Err(e) => return Err(e),
        };
        proof {
            lemma_decode_pairs_append(ps, i as int, map.deep_view(), k@, v@);
        }
        let ghost before = map.deep_view();
        map.push((k, v));
        assert(map.deep_view() =~= before.push((k@, v@)));
        i = i + 1;
    }
    assert(ps.skip(pieces.len() as int) =~= Seq::<Seq<char>>::empty());
    assert(map.deep_view() + Seq::<(Seq<char>, Seq<char>)>::empty() =~= map.deep_view());
    Ok(map)
}

fn get_param<'a>(params: &'a Vec<(String, String)>, key: &str) -> (r: Option<&'a str>)
    ensures
        opt_view(r) == lookup(params.deep_view(), key@),
{
    let ghost pv = params.deep_view();
    let mut j: usize = params.len();
    assert(pv.take(j as int) =~= pv);
    while j > 0
        invariant
            j <= params.len(),
            pv == params.deep_view(),
            lookup(pv, key@) == lookup(pv.take(j as int), key@),
        decreases j,
    {
        proof {
            assert(pv.take(j as int).drop_last() =~= pv.take(j - 1));
            assert(pv.take(j as int).last() == pv[j - 1]);
            assert(pv[j - 1] == (params[j - 1].0@, params[j - 1].1@));
        }
        if str_eq(params[j - 1].0.as_str(), key) {
            return Some(params[j - 1].1.as_str());
        }
        j = j - 1;
    }
    assert(pv.take(0) =~= Seq::<(Seq<char>, Seq<char>)>::empty());
    None
}

/// A parameter, trimmed; `None` when missing or blank.
fn param(params: &Vec<(String, String)>, key: &str) -> (r: Option<String>)
    ensures
        match r {
            Some(s) => spec_param(params.deep_view(), key@) == Some(s@),
            None => spec_param(params.deep_view(), key@) is None,
        },
{
    match get_param(params, key) {
        Some(v) => {
            let t = trim_str(v);
            if t.as_str().is_empty() {
                None
            } else {
                Some(t)
            }
        },
        None => None,
    }
}

fn raw_param_str<'a>(params: &'a Vec<(String, String)>, key: &str) -> (r: &'a str)
    ensures
        r@ == raw_param(params.deep_view(), key@),
{
    match get_param(params, key) {
        Some(v) => v,
        None => {
            proof {
                reveal_strlit("");
            }
            ""
        },
    }
}

// ---------------------------------------------------------------------------
// Case and sex parameters
// ---------------------------------------------------------------------------

/// A normalised case parameter: empty, an English name, 1 to 6, or
/// `им|рд|дт|вн|тв|пр`.
pub open spec fn case_choice(n: Seq<char>) -> Option<Option<Case>> {
    if n == ""@ || n == "nominative"@ || n == "1"@ || n == "им"@ {
        Some(None)
    } else if n == "genitive"@ || n == "2"@ || n == "рд"@ {
        Some(Some(Case::Genitive))
    } else if n == "dative"@ || n == "3"@ || n == "дт"@ {
        Some(Some(Case::Dative))
    } else if n == "accusative"@ || n == "4"@ || n == "вн"@ {
        Some(Some(Case::Accusative))
    } else if n == "instrumental"@ || n == "5"@ || n == "тв"@ {
        Some(Some(Case::Instrumental))
    } else if n == "prepositional"@ || n == "6"@ || n == "пр"@ {
        Some(Some(Case::Prepositional))
    } else {
        None
    }
}

/// The case parameter (trimmed, lowercased) or the error message.
pub open spec fn parsed_case(value: Seq<char>) -> Result<Option<Case>, Seq<char>> {
    let n = lowercase(trim(value));
    match case_choice(n) {
        Some(c) => Ok(c),
        None => Err("unknown case "@ + debug_quoted(n) + " (want 1-6 or genitive/…)"@),
    }
}

/// A normalised sex parameter: empty/`auto`, `male|m|м`, `female|f|ж`,
/// `androgynous`.
pub open spec fn sex_choice(n: Seq<char>) -> Option<Option<Gender>> {
    if n == ""@ || n == "auto"@ {
        Some(None)
    } else if n == "male"@ || n == "m"@ || n == "м"@ {
        Some(Some(Gender::Male))
    } else if n == "female"@ || n == "f"@ || n == "ж"@ {
        Some(Some(Gender::Female))
    } else if n == "androgynous"@ {
        Some(Some(Gender::Androgynous))
    } else {
        None
    }
}

/// The sex parameter (trimmed, lowercased) or the error message.
pub open spec fn parsed_sex_param(value: Seq<char>) -> Result<Option<Gender>, Seq<char>> {
    let n = lowercase(trim(value));
    match sex_choice(n) {
        Some(g) => Ok(g),
        None => Err("unknown sex "@ + debug_quoted(n) + " (want male/female/auto)"@),
    }
}

fn normalized(value: &str) -> (r: String)
    ensures
        r@ == lowercase(trim(value@)),
{
    let t = trim_str(value);
    to_lower(t.as_str())
}

/// Parses a case parameter (`Ok(None)`: nominative).
pub fn parse_case(value: &str) -> (r: Result<Option<Case>, String>)
    ensures
        match r {
            Ok(c) => parsed_case(value@) == Ok::<Option<Case>, Seq<char>>(c),
            Err(m) => parsed_case(value@) == Err::<Option<Case>, Seq<char>>(m@),
        },
{
    let owned = normalized(value);
    let n = owned.as_str();
    if str_eq(n, "") || str_eq(n, "nominative") || str_eq(n, "1") || str_eq(n, "им") {
        Ok(None)
    } else if str_eq(n, "genitive") || str_eq(n, "2") || str_eq(n, "рд") {
        Ok(Some(Case::Genitive))
    } else if str_eq(n, "dative") || str_eq(n, "3") || str_eq(n, "дт") {
        Ok(Some(Case::Dative))
    } else if str_eq(n, "accusative") || str_eq(n, "4") || str_eq(n, "вн") {
        Ok(Some(Case::Accusative))
    } else if str_eq(n, "instrumental") || str_eq(n, "5") || str_eq(n, "тв") {
        Ok(Some(Case::Instrumental))
    } else if str_eq(n, "prepositional") || str_eq(n, "6") || str_eq(n, "пр") {
        Ok(Some(Case::Prepositional))
    } else {
        let mut m = "unknown case ".to_owned();
        let q = debug_str(n);
        m.append(q.as_str());
        m.append(" (want 1-6 or genitive/…)");
        Err(m)
    }
}

/// Parses a sex parameter (`Ok(None)`: detect).
pub fn parse_sex(value: &str) -> (r: Result<Option<Gender>, String>)
    ensures
        match r {
            Ok(g) => parsed_sex_param(value@) == Ok::<Option<Gender>, Seq<char>>(g),
            Err(m) => parsed_sex_param(value@) == Err::<Option<Gender>, Seq<char>>(m@),
        },
{
    let owned = normalized(value);
    let n = owned.as_str();
    if str_eq(n, "") || str_eq(n, "auto") {
        Ok(None)
    } else if str_eq(n, "male") || str_eq(n, "m") || str_eq(n, "м") {
        Ok(Some(Gender::Male))
    } else if str_eq(n, "female") || str_eq(n, "f") || str_eq(n, "ж") {
        Ok(Some(Gender::Female))
    } else if str_eq(n, "androgynous") {
        Ok(Some(Gender::Androgynous))
    } else {
        let mut m = "unknown sex ".to_owned();
        let q = debug_str(n);
        m.append(q.as_str());
        m.append(" (want male/female/auto)");
        Err(m)
    }
}

/// Lowercase English name of a gender.
pub open spec fn gender_text(g: Gender) -> Seq<char> {
    match g {
        Gender::Male => "male"@,
        Gender::Female => "female"@,
        Gender::Androgynous => "androgynous"@,
    }
}

/// Lowercase English name of a gender.
pub fn gender_name(gender: Gender) -> (r: &'static str)
    ensures
        r@ == gender_text(gender),
{
    match gender {
        Gender::Male => "male",
        Gender::Female => "female",
        Gender::Androgynous => "androgynous",
    }
}

// ---------------------------------------------------------------------------
// Responses
// ---------------------------------------------------------------------------

/// HTTP response before serialization.
pub struct Response {
    /// Status code.
    pub status: u16,
    /// `Content-Type` header value.
    pub content_type: &'static str,
    /// Body text.
    pub body: String,
}

/// Content type of plain-text answers.
pub open spec fn text_plain() -> Seq<char> {
    "text/plain; charset=utf-8"@
}

/// Content type of JSON answers.
pub open spec fn app_json() -> Seq<char> {
    "application/json; charset=utf-8"@
}

impl Response {
    /// The response as (status, content type, body).
    pub open spec fn parts(&self) -> (u16, Seq<char>, Seq<char>) {
        (self.status, self.content_type@, self.body@)
    }

    fn ok(body: String) -> (r: Self)
        ensures
            r.parts() == (200u16, text_plain(), body@),
    {
        Response { status: 200, content_type: "text/plain; charset=utf-8", body }
    }

    fn json(body: String) -> (r: Self)
        ensures
            r.parts() == (200u16, app_json(), body@),
    {
        Response { status: 200, content_type: "application/json; charset=utf-8", body }
    }

    fn bad(message: String) -> (r: Self)
        ensures
            r.parts() == (400u16, text_plain(), message@),
    {
        Response { status: 400, content_type: "text/plain; charset=utf-8", body: message }
    }

    fn not_found() -> (r: Self)
        ensures
            r.parts() == (404u16, text_plain(), "not found"@),
    {
        Response {
            status: 404,
            content_type: "text/plain; charset=utf-8",
            body: "not found".to_owned(),
        }
    }
}

// ---------------------------------------------------------------------------
// JSON strings
// ---------------------------------------------------------------------------

/// Lowercase hexadecimal digit.
pub open spec fn hex_char(d: int) -> char {
    if d < 10 {
        digit_char(d)
    } else if d == 10 {
        'a'
    } else if d == 11 {
        'b'
    } else if d == 12 {
        'c'
    } else if d == 13 {
        'd'
    } else if d == 14 {
        'e'
    } else {
        'f'
    }
}

/// One character as it stands inside a JSON string.
pub open spec fn escape_char(c: char) -> Seq<char> {
    if c == '"' {
        seq!['\\', '"']
    } else if c == '\\' {
        seq!['\\', '\\']
    } else if c == '\n' {
        seq!['\\', 'n']
    } else if c == '\r' {
        seq!['\\', 'r']
    } else if c == '\t' {
        seq!['\\', 't']
    } else if (c as u32) < 0x20 {
        seq!['\\', 'u', '0', '0', hex_char(((c as u32) / 16) as int), hex_char(((c as u32) % 16) as int)]
    } else {
        seq![c]
    }
}

/// Text escaped for a JSON string literal.
pub open spec fn json_escape(s: Seq<char>) -> Seq<char>
    decreases s.len(),
{
    if s.len() == 0 {
        Seq::empty()
    } else {
        json_escape(s.drop_last()) + escape_char(s.last())
    }
}

fn hex_str(d: u32) -> (r: &'static str)
    requires
        d < 16,
    ensures
        r@ == seq![hex_char(d as int)],
{
    proof {
        reveal_strlit("0");
        reveal_strlit("1");
        reveal_strlit("2");
        reveal_strlit("3");
        reveal_strlit("4");
        reveal_strlit("5");
        reveal_strlit("6");
        reveal_strlit("7");
        reveal_strlit("8");
        reveal_strlit("9");
        reveal_strlit("a");
        reveal_strlit("b");
        reveal_strlit("c");
        reveal_strlit("d");
        reveal_strlit("e");
        reveal_strlit("f");
    }
    match d {
        0 => "0",
        1 => "1",
        2 => "2",
        3 => "3",
        4 => "4",
        5 => "5",
        6 => "6",
        7 => "7",
        8 => "8",
        9 => "9",
        10 => "a",
        11 => "b",
        12 => "c",
        13 => "d",
        14 => "e",
        _ => "f",
    }
}

/// Escapes text for a JSON string literal.
fn escape_json(value: &str) -> (r: String)
    ensures
        r@ == json_escape(value@),
{
    let n = value.unicode_len();
    let mut out = String::new();
    let mut i: usize = 0;
    while i < n
        invariant
            n == value@.len(),
            i <= n,
            out@ == json_escape(value@.take(i as int)),
        decreases n - i,
    {
        let c = value.get_char(i);
        let ghost before = out@;
        proof {
            reveal_strlit("\\");
            reveal_strlit("n");
            reveal_strlit("r");
            reveal_strlit("t");
            reveal_strlit("u00");
        }
        if c == '"' || c == '\\' {
            let one = value.substring_char(i, i + 1);
            assert(one@ =~= seq![c]);
            out.append("\\");
            out.append(one);
            assert(out@ =~= before + escape_char(c));
        } else if c == '\n' {
            out.append("\\");
            out.append("n");
            assert(out@ =~= before + escape_char(c));
        } else if c == '\r' {
            out.append("\\");
            out.append("r");
            assert(out@ =~= before + escape_char(c));
        } else if c == '\t' {
            out.append("\\");
            out.append("t");
            assert(out@ =~= before + escape_char(c));
        } else if (c as u32) < 0x20 {
            out.append("\\");
            out.append("u00");
            out.append(hex_str((c as u32) / 16));
            out.append(hex_str((c as u32) % 16));
            assert(out@ =~= before + escape_char(c));
        } else {
            let one = value.substring_char(i, i + 1);
            assert(one@ =~= seq![c]);
            out.append(one);
        }
        proof {
            assert(value@.take(i + 1).drop_last() =~= value@.take(i as int));
            assert(value@.take(i + 1).last() == c);
            assert(out@ =~= before + escape_char(c));
        }
        i = i + 1;
    }
    assert(value@.take(n as int) =~= value@);
    out
}

// ---------------------------------------------------------------------------
// Routing
// ---------------------------------------------------------------------------

/// Name parts of a request.
struct Name {
    lastname: Option<String>,
    firstname: Option<String>,
    middlename: Option<String>,
}

/// Characters of an optional owned string.
pub open spec fn opt_string_view(o: Option<String>) -> Option<Seq<char>> {
    match o {
        Some(s) => Some(s@),
        None => None,
    }
}

impl Name {
    spec fn views(&self) -> (Option<Seq<char>>, Option<Seq<char>>, Option<Seq<char>>) {
        (
            opt_string_view(self.lastname),
            opt_string_view(self.firstname),
            opt_string_view(self.middlename),
        )
    }

    fn from_params(params: &Vec<(String, String)>) -> (r: Self)
        ensures
            r.views() == (
                spec_param(params.deep_view(), "lastname"@),
                spec_param(params.deep_view(), "firstname"@),
                spec_param(params.deep_view(), "middlename"@),
            ),
    {
        Name {
            lastname: param(params, "lastname"),
            firstname: param(params, "firstname"),
            middlename: param(params, "middlename"),
        }
    }

    fn is_empty(&self) -> (r: bool)
        ensures
            r == (self.lastname is None && self.firstname is None && self.middlename is None),
    {
        self.lastname.is_none() && self.firstname.is_none() && self.middlename.is_none()
    }

    fn ln(&self) -> (r: Option<&str>)
        ensures
            opt_view(r) == self.views().0,
    {
        match &self.lastname {
            Some(s) => Some(s.as_str()),
            None => None,
        }
    }

    fn fn_(&self) -> (r: Option<&str>)
        ensures
            opt_view(r) == self.views().1,
    {
        match &self.firstname {
            Some(s) => Some(s.as_str()),
            None => None,
        }
    }

    fn mn(&self) -> (r: Option<&str>)
        ensures
            opt_view(r) == self.views().2,
    {
        match &self.middlename {
            Some(s) => Some(s.as_str()),
            None => None,
        }
    }

    fn gender(&self, sex: Option<Gender>) -> (g: Gender)
        ensures
            g == match sex {
                Some(s) => s,
                None => spec_detect_gender(self.views().0, self.views().1, self.views().2),
            },
    {
        match sex {
            Some(s) => s,
            None => detect_gender(self.ln(), self.fn_(), self.mn()),
        }
    }
}

/// Body of `/appoint` and `/api/v1/appoint`.
pub open spec fn spec_appoint(params: Seq<(Seq<char>, Seq<char>)>, json: bool) -> (
    u16,
    Seq<char>,
    Seq<char>,
) {
    match spec_param(params, "appointment"@) {
        None => (400u16, text_plain(), "appointment is required"@),
        Some(appointment) => match parsed_case(raw_param(params, "case"@)) {
            Err(m) => (400u16, text_plain(), m),
            Ok(case) => {
                let value = match spec_param(params, "office"@) {
                    Some(office) => decline_text(spec_merge(appointment, office), case),
                    None => decline_text(appointment, case),
                };
                if json {
                    (200u16, app_json(), "{\"appointment\":\""@ + json_escape(value) + "\"}"@)
                } else {
                    (200u16, text_plain(), value)
                }
            },
        },
    }
}

fn appoint(params: &Vec<(String, String)>, json: bool) -> (r: Response)
    ensures
        r.parts() == spec_appoint(params.deep_view(), json),
{
    let appointment = match param(params, "appointment") {
        Some(a) => a,
        None => return Response::bad("appointment is required".to_owned()),
    };
    let case = match parse_case(raw_param_str(params, "case")) {
        Ok(case) => case,
        Err(message) => return Response::bad(message),
    };
    let value = match param(params, "office") {
        Some(office) => decline_full_appointment(appointment.as_str(), office.as_str(), case),
        None => decline_appointment(appointment.as_str(), case),
    };
    if json {
        let mut body = "{\"appointment\":\"".to_owned();
        let escaped = escape_json(value.as_str());
        body.append(escaped.as_str());
        body.append("\"}");
        Response::json(body)
    } else {
        Response::ok(value)
    }
}

/// A present name part in the requested case, or the empty string.
pub open spec fn part_or_empty(kind: NamePart, gender: Gender, part: Option<Seq<char>>, case: Option<
    Case,
>) -> Seq<char> {
    match part {
        Some(p) => spec_inflect_opt(kind, gender, p, case),
        None => Seq::empty(),
    }
}

/// JSON body of `/api/v1/decline`.
pub open spec fn json_decline(
    ln: Option<Seq<char>>,
    fn_: Option<Seq<char>>,
    mn: Option<Seq<char>>,
    gender: Gender,
    case: Option<Case>,
) -> Seq<char> {
    "{\"lastname\":\""@ + json_escape(part_or_empty(NamePart::Last, gender, ln, case))
        + "\",\"firstname\":\""@ + json_escape(part_or_empty(NamePart::First, gender, fn_, case))
        + "\",\"middlename\":\""@ + json_escape(part_or_empty(NamePart::Middle, gender, mn, case))
        + "\"}"@
}

/// Body of `/cases`: the name in every case of `case_order`, tab-separated.
pub open spec fn cases_body(
    ln: Option<Seq<char>>,
    fn_: Option<Seq<char>>,
    mn: Option<Seq<char>>,
    gender: Gender,
) -> Seq<char> {
    join(case_order().map_values(|c: Option<Case>| declined_fio(ln, fn_, mn, gender, c)), "\t"@)
}

/// The path is one of the name routes.
pub open spec fn is_name_route(path: Seq<char>) -> bool {
    path == "/decline"@ || path == "/gender"@ || path == "/cases"@ || path == "/api/v1/decline"@
        || path == "/api/v1/gender"@
}

/// Response to `GET path?query` with the parsed query parameters.
pub open spec fn spec_route(path: Seq<char>, params: Seq<(Seq<char>, Seq<char>)>) -> (
    u16,
    Seq<char>,
    Seq<char>,
) {
    if path == "/health"@ {
        (200u16, text_plain(), "ok"@)
    } else if path == "/appoint"@ || path == "/api/v1/appoint"@ {
        spec_appoint(params, path == "/api/v1/appoint"@)
    } else if !is_name_route(path) {
        (404u16, text_plain(), "not found"@)
    } else {
        let json = path == "/api/v1/decline"@ || path == "/api/v1/gender"@;
        let ln = spec_param(params, "lastname"@);
        let fn_ = spec_param(params, "firstname"@);
        let mn = spec_param(params, "middlename"@);
        if ln is None && fn_ is None && mn is None {
            (400u16, text_plain(), "at least one of lastname/firstname/middlename is required"@)
        } else {
            match parsed_sex_param(raw_param(params, "sex"@)) {
                Err(m) => (400u16, text_plain(), m),
                Ok(sex) => {
                    let gender = match sex {
                        Some(g) => g,
                        None => spec_detect_gender(ln, fn_, mn),
                    };
                    if path == "/gender"@ || path == "/api/v1/gender"@ {
                        if json {
                            (200u16, app_json(), "{\"gender\":\""@ + gender_text(gender) + "\"}"@)
                        } else {
                            (200u16, text_plain(), gender_text(gender))
                        }
                    } else if path == "/cases"@ {
                        (200u16, text_plain(), cases_body(ln, fn_, mn, gender))
                    } else {
                        match parsed_case(raw_param(params, "case"@)) {
                            Err(m) => (400u16, text_plain(), m),
                            Ok(case) => if json {
                                (200u16, app_json(), json_decline(ln, fn_, mn, gender, case))
                            } else {
                                (200u16, text_plain(), declined_fio(ln, fn_, mn, gender, case))
                            },
                        }
                    }
                },
            }
        }
    }
}

fn decline_values(name: &Name, gender: Gender, case: Option<Case>) -> (r: String)
    ensures
        r@ == declined_fio(name.views().0, name.views().1, name.views().2, gender, case),
{
    let mut out: Vec<String> = Vec::new();
    if let Some(p) = name.ln() {
        out.push(inflect_opt(NamePart::Last, gender, p, case));
    }
    let ghost a = out.deep_view();
    assert(a =~= crate::adapter::opt_part(NamePart::Last, gender, name.views().0, case));
    if let Some(p) = name.fn_() {
        out.push(inflect_opt(NamePart::First, gender, p, case));
    }
    let ghost b = out.deep_view();
    assert(b =~= a + crate::adapter::opt_part(NamePart::First, gender, name.views().1, case));
    if let Some(p) = name.mn() {
        out.push(inflect_opt(NamePart::Middle, gender, p, case));
    }
    assert(out.deep_view() =~= b + crate::adapter::opt_part(
        NamePart::Middle,
        gender,
        name.views().2,
        case,
    ));
    join_strings(&out, " ")
}

fn value_or_empty(kind: NamePart, gender: Gender, part: Option<&str>, case: Option<Case>) -> (r:
    String)
    ensures
        r@ == part_or_empty(kind, gender, opt_view(part), case),
{
    match part {
        Some(p) => inflect_opt(kind, gender, p, case),
        None => String::new(),
    }
}

fn cases_text(name: &Name, gender: Gender) -> (r: String)
    ensures
        r@ == cases_body(name.views().0, name.views().1, name.views().2, gender),
{
    let ghost all = case_order().map_values(
        |c: Option<Case>| declined_fio(name.views().0, name.views().1, name.views().2, gender, c),
    );
    let mut cases: Vec<String> = Vec::new();
    let mut i: usize = 0;
    while i < 6
        invariant
            i <= 6,
            all == case_order().map_values(
                |c: Option<Case>|
                    declined_fio(name.views().0, name.views().1, name.views().2, gender, c),
            ),
            cases.deep_view() =~= all.take(i as int),
        decreases 6 - i,
    {
        let line = decline_values(name, gender, case_at(i));
        let ghost before = cases.deep_view();
        cases.push(line);
        assert(all.take(i + 1) =~= all.take(i as int).push(all[i as int]));
        assert(cases.deep_view() =~= before.push(line@));
        i = i + 1;
    }
    assert(all.take(6) =~= all);
    join_strings(&cases, "\t")
}

/// Routes a `GET` request (path and parsed query) to its response.
pub fn route(path: &str, params: &Vec<(String, String)>) -> (r: Response)
    ensures
        r.parts() == spec_route(path@, params.deep_view()),
{
    if str_eq(path, "/health") {
        return Response::ok("ok".to_owned());
    }
    if str_eq(path, "/appoint") || str_eq(path, "/api/v1/appoint") {
        return appoint(params, str_eq(path, "/api/v1/appoint"));
    }
    let json = str_eq(path, "/api/v1/decline") || str_eq(path, "/api/v1/gender");
    if !(str_eq(path, "/decline") || str_eq(path, "/gender") || str_eq(path, "/cases") || str_eq(
        path,
        "/api/v1/decline",
    ) || str_eq(path, "/api/v1/gender")) {
        return Response::not_found();
    }
    let name = Name::from_params(params);
    if name.is_empty() {
        return Response::bad(
            "at least one of lastname/firstname/middlename is required".to_owned(),
        );
    }
    let sex = match parse_sex(raw_param_str(params, "sex")) {
        Ok(sex) => sex,
        Err(message) => return Response::bad(message),
    };
    let gender = name.gender(sex);
    if str_eq(path, "/gender") || str_eq(path, "/api/v1/gender") {
        let value = gender_name(gender);
        return if json {
            let mut body = "{\"gender\":\"".to_owned();
            body.append(value);
            body.append("\"}");
            Response::json(body)
        } else {
            Response::ok(value.to_owned())
        };
    }
    if str_eq(path, "/cases") {
        return Response::ok(cases_text(&name, gender));
    }
    let case = match parse_case(raw_param_str(params, "case")) {
        Ok(case) => case,
        Err(message) => return Response::bad(message),
    };
    if json {
        let ln = value_or_empty(NamePart::Last, gender, name.ln(), case);
        let fn_ = value_or_empty(NamePart::First, gender, name.fn_(), case);
        let mn = value_or_empty(NamePart::Middle, gender, name.mn(), case);
        let mut body = "{\"lastname\":\"".to_owned();
        let e1 = escape_json(ln.as_str());
        body.append(e1.as_str());
        body.append("\",\"firstname\":\"");
        let e2 = escape_json(fn_.as_str());
        body.append(e2.as_str());
        body.append("\",\"middlename\":\"");
        let e3 = escape_json(mn.as_str());
        body.append(e3.as_str());
        body.append("\"}");
        Response::json(body)
    } else {
        Response::ok(decline_values(&name, gender, case))
    }
}

/// Reason phrase of a status code.
pub open spec fn reason_phrase(status: u16) -> Seq<char> {
    if status == 200 {
        "OK"@
    } else if status == 400 {
        "Bad Request"@
    } else if status == 404 {
        "Not Found"@
    } else {
        "Error"@
    }
}

/// Reason phrase of a status code.
pub fn reason(status: u16) -> (r: &'static str)
    ensures
        r@ == reason_phrase(status),
{
    match status {
        200 => "OK",
        400 => "Bad Request",
        404 => "Not Found",
        _ => "Error",
    }
}

// ---------------------------------------------------------------------------
// Requests on the wire
// ---------------------------------------------------------------------------

/// Largest request head, in bytes, that is read.
pub const MAX_HEAD_BYTES: usize = 65536;

/// What to do after bytes of a request have arrived.
#[derive(Clone, Copy, PartialEq, Eq, Debug, Structural)]
pub enum ReadStep {
    /// The head is not complete yet: read more.
    Continue,
    /// The head is complete (it holds an empty line): answer it.
    Complete,
    /// The head grew too large: drop the connection.
    Abandon,
}

/// `b` holds `\r\n\r\n` at `i`.
pub open spec fn blank_line_at(b: Seq<u8>, i: int) -> bool {
    0 <= i && i + 4 <= b.len() && b[i] == 13 && b[i + 1] == 10 && b[i + 2] == 13 && b[i + 3] == 10
}

/// The step after the bytes `b` received so far.
pub open spec fn spec_read_step(b: Seq<u8>) -> ReadStep {
    if b.len() > MAX_HEAD_BYTES {
        ReadStep::Abandon
    } else if exists|i: int| blank_line_at(b, i) {
        ReadStep::Complete
    } else {
        ReadStep::Continue
    }
}

/// Decides, from the bytes received so far, whether to read on, answer or drop.
pub fn read_step(request: &Vec<u8>) -> (r: ReadStep)
    ensures
        r == spec_read_step(request@),
{
    let n = request.len();
    if n > MAX_HEAD_BYTES {
        return ReadStep::Abandon;
    }
    let mut i: usize = 0;
    while i + 4 <= n
        invariant
            n == request@.len(),
            n <= MAX_HEAD_BYTES,
            i <= n,
            forall|j: int| 0 <= j < i ==> !blank_line_at(request@, j),
        decreases n - i,
    {
        if request[i] == 13 && request[i + 1] == 10 && request[i + 2] == 13 && request[i + 3]
            == 10 {
            assert(blank_line_at(request@, i as int));
            return ReadStep::Complete;
        }
        i = i + 1;
    }
    assert forall|j: int| !blank_line_at(request@, j) by {
        if 0 <= j < i {
        }
    }
    ReadStep::Continue
}

/// The text before the first line feed.
pub open spec fn first_line(head: Seq<char>) -> Seq<char> {
    split_on(head, seq!['\n'])[0]
}

/// The `i`-th word of the request line, empty when missing.
pub open spec fn request_word(head: Seq<char>, i: int) -> Seq<char> {
    if 0 <= i < words(first_line(head)).len() {
        words(first_line(head))[i]
    } else {
        Seq::empty()
    }
}

/// The answer to a request whose head (request line and headers) is `head`:
/// only `GET` is served; the target is split at its first `?` into the path
/// and the query; a query that does not decode is a `400`.
pub open spec fn spec_respond(head: Seq<char>) -> (u16, Seq<char>, Seq<char>) {
    if request_word(head, 0) != "GET"@ {
        (404u16, text_plain(), "only GET is supported"@)
    } else {
        let (path, query) = split_at_first(request_word(head, 1), '?');
        match parsed_query(query) {
            Ok(params) => spec_route(path, params),
            Err(m) => (400u16, text_plain(), m),
        }
    }
}

/// Answers a request from its head.
pub fn respond(head: &str) -> (r: Response)
    ensures
        r.parts() == spec_respond(head@),
{
    proof {
        reveal_strlit("\n");
        assert("\n"@ =~= seq!['\n']);
    }
    let lines = split_str(head, "\n");
    proof {
        lemma_split_on_nonempty(head@, seq!['\n']);
    }
    assert(lines.deep_view()[0] == lines[0]@);
    let ws = word_slices(lines[0].as_str());
    let method = if ws.len() > 0 {
        assert(ws.deep_view()[0] == ws[0]@);
        ws[0]
    } else {
        proof {
            reveal_strlit("");
        }
        ""
    };
    let target = if ws.len() > 1 {
        assert(ws.deep_view()[1] == ws[1]@);
        ws[1]
    } else {
        proof {
            reveal_strlit("");
        }
        ""
    };
    assert(method@ == request_word(head@, 0));
    assert(target@ == request_word(head@, 1));
    if !str_eq(method, "GET") {
        return Response {
            status: 404,
            content_type: "text/plain; charset=utf-8",
            body: "only GET is supported".to_owned(),
        };
    }
    let (path, query) = split_at_char(target, '?');
    match parse_query(query) {
        Ok(params) => route(path, &params),
        Err(message) => Response::bad(message),
    }
}

/// The response as sent: status line, `Content-Type`, `Content-Length` (of
/// the UTF-8 body), `Connection: close`, an empty line and the body.
pub open spec fn wire_text(status: u16, content_type: Seq<char>, body: Seq<char>) -> Seq<char> {
    "HTTP/1.1 "@ + digits(status as nat) + " "@ + reason_phrase(status) + "\r\nContent-Type: "@
        + content_type + "\r\nContent-Length: "@ + digits(encode_utf8(body).len())
        + "\r\nConnection: close\r\n\r\n"@ + body
}

impl Response {
    /// The response serialized for the wire (see `wire_text`).
    pub fn to_wire(&self) -> (r: String)
        ensures
            r@ == wire_text(self.status, self.content_type@, self.body@),
    {
        let mut out = "HTTP/1.1 ".to_owned();
        push_digits(&mut out, self.status as u64);
        out.append(" ");
        out.append(reason(self.status));
        out.append("\r\nContent-Type: ");
        out.append(self.content_type);
        out.append("\r\nContent-Length: ");
        let body = self.body.as_str();
        let len = body.as_bytes().len();
        push_digits(&mut out, len as u64);
        out.append("\r\nConnection: close\r\n\r\n");
        out.append(body);
        out
    }
}

/// The case parameter agrees with the padeg case numbers: the number `n`
/// (1 to 6) selects the case that padeg number `n` stands for, its English
/// name is the `n`-th entry of the `/cases` order, and so is its
/// two-letter Russian abbreviation.
pub proof fn law_case_parameter_matches_padeg_numbers(n: i32)
    requires
        1 <= n <= 6,
    ensures
        case_choice(decimal(n as int)) == padeg_case(n),
        case_choice(CASE_NAMES@[n - 1]@) == Some(case_order()[n - 1]),
        case_choice(CASE_NAMES@[n - 1]@) == case_choice(decimal(n as int)),
        case_choice(seq!["им"@, "рд"@, "дт"@, "вн"@, "тв"@, "пр"@][n - 1]) == case_choice(
            decimal(n as int),
        ),
{
    reveal_strlit("");
    reveal_strlit("nominative");
    reveal_strlit("1");
    reveal_strlit("им");
    reveal_strlit("genitive");
    reveal_strlit("2");
    reveal_strlit("рд");
    reveal_strlit("dative");
    reveal_strlit("3");
    reveal_strlit("дт");
    reveal_strlit("accusative");
    reveal_strlit("4");
    reveal_strlit("вн");
    reveal_strlit("instrumental");
    reveal_strlit("5");
    reveal_strlit("тв");
    reveal_strlit("prepositional");
    reveal_strlit("6");
    reveal_strlit("пр");
    assert("1"@ =~= seq!['1']);
    assert("1"@[0] == '1');
    assert("2"@ =~= seq!['2']);
    assert("2"@[0] == '2');
    assert("3"@ =~= seq!['3']);
    assert("3"@[0] == '3');
    assert("4"@ =~= seq!['4']);
    assert("4"@[0] == '4');
    assert("5"@ =~= seq!['5']);
    assert("5"@[0] == '5');
    assert("6"@ =~= seq!['6']);
    assert("6"@[0] == '6');
    assert("им"@ =~= seq!['и', 'м']);
    assert("им"@[0] == 'и');
    assert("им"@[1] == 'м');
    assert("рд"@ =~= seq!['р', 'д']);
    assert("рд"@[0] == 'р');
    assert("рд"@[1] == 'д');
    assert("дт"@ =~= seq!['д', 'т']);
    assert("дт"@[0] == 'д');
    assert("дт"@[1] == 'т');
    assert("вн"@ =~= seq!['в', 'н']);
    assert("вн"@[0] == 'в');
    assert("вн"@[1] == 'н');
    assert("тв"@ =~= seq!['т', 'в']);
    assert("тв"@[0] == 'т');
    assert("тв"@[1] == 'в');
    assert("пр"@ =~= seq!['п', 'р']);
    assert("пр"@[0] == 'п');
    assert("пр"@[1] == 'р');
    assert("nominative"@.len() == 10 && "nominative"@[0] == 'n');
    assert("genitive"@.len() == 8 && "genitive"@[0] == 'g');
    assert("dative"@.len() == 6 && "dative"@[0] == 'd');
    assert("accusative"@.len() == 10 && "accusative"@[0] == 'a');
    assert("instrumental"@.len() == 12 && "instrumental"@[0] == 'i');
    assert("prepositional"@.len() == 13 && "prepositional"@[0] == 'p');
    assert(decimal(n as int) == seq![digit_char(n as int)]);
    if n == 1 {
        assert(decimal(n as int) =~= "1"@);
        assert(CASE_NAMES@[0]@ == "nominative"@);
    } else if n == 2 {
        assert(decimal(n as int) =~= "2"@);
        assert(CASE_NAMES@[1]@ == "genitive"@);
    } else if n == 3 {
        assert(decimal(n as int) =~= "3"@);
        assert(CASE_NAMES@[2]@ == "dative"@);
    } else if n == 4 {
        assert(decimal(n as int) =~= "4"@);
        assert(CASE_NAMES@[3]@ == "accusative"@);
    } else if n == 5 {
        assert(decimal(n as int) =~= "5"@);
        assert(CASE_NAMES@[4]@ == "instrumental"@);
    } else {
        assert(decimal(n as int) =~= "6"@);
        assert(CASE_NAMES@[5]@ == "prepositional"@);
    }
}

} // verus!
