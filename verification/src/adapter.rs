//! The methods of the padeg `Declension` interface as plain functions:
//! padeg case numbers, padeg sex strings, "Фамилия Имя Отчество" strings,
//! job titles and departments.

use vstd::prelude::*;

use crate::appointment::{
    decline_appointment, decline_full_appointment, decline_office, decline_text, spec_merge,
};
use crate::gender::{detect_gender, opt_view, spec_detect_gender, Gender};
use crate::inflect::{inflect_opt, spec_inflect_opt, Case, NamePart};
use crate::text::{
    debug_quoted, debug_str, decimal, find_char, first_index_of, int_to_string, join,
    join_strings, lowercase, str_eq, to_lower,
    to_owned_all, trim, trim_str, word_slices, words,
};

verus! {

/// Return code: success.
pub const CODE_OK: i32 = 0;

/// Return code: the case number is not 1 to 6.
pub const CODE_BAD_PADEG: i32 = -1;

/// Return code: the sex string is not understood.
pub const CODE_BAD_SEX: i32 = -2;

/// Return code: the caller's buffer is too small.
pub const CODE_SMALL_BUFFER: i32 = -3;

/// Error of a padeg method: the padeg return code and a message.
#[derive(Debug, PartialEq, Eq)]
pub struct PadegError {
    /// padeg return code (`CODE_BAD_PADEG`, `CODE_BAD_SEX`).
    pub code: i32,
    /// Human-readable description.
    pub message: String,
}

/// Message for a case number outside 1 to 6.
pub open spec fn bad_padeg_message(padeg: i32) -> Seq<char> {
    "nPadeg должен быть 1..6, получен "@ + decimal(padeg as int)
}

/// Message for a sex string that is not understood.
pub open spec fn bad_sex_message(sex: Seq<char>) -> Seq<char> {
    "cSex должен быть пустым/auto, начинаться с м/m или ж/f/w, получено "@ + debug_quoted(sex)
}

/// Message of the unsupported case-number detection.
pub open spec fn padeg_id_message() -> Seq<char> {
    "GetPadegID не поддерживается: нужно обратное склонение (см. PLAN-COM-API.md)"@
}

/// `e` is the error for the case number `padeg`.
pub open spec fn is_bad_padeg(e: PadegError, padeg: i32) -> bool {
    e.code == CODE_BAD_PADEG && e.message@ == bad_padeg_message(padeg)
}

/// `e` is the error for the sex string `sex`.
pub open spec fn is_bad_sex(e: PadegError, sex: Seq<char>) -> bool {
    e.code == CODE_BAD_SEX && e.message@ == bad_sex_message(sex)
}

impl PadegError {
    fn bad_padeg(padeg: i32) -> (e: Self)
        ensures
            is_bad_padeg(e, padeg),
    {
        let mut message = "nPadeg должен быть 1..6, получен ".to_owned();
        let number = int_to_string(padeg);
        message.append(number.as_str());
        PadegError { code: CODE_BAD_PADEG, message }
    }

    fn bad_sex(sex: &str) -> (e: Self)
        ensures
            is_bad_sex(e, sex@),
    {
        let mut message = "cSex должен быть пустым/auto, начинаться с м/m или ж/f/w, получено ".to_owned();
        let quoted = debug_str(sex);
        message.append(quoted.as_str());
        PadegError { code: CODE_BAD_SEX, message }
    }

    /// `[code] message`, the text the error displays as.
    pub fn to_string(&self) -> (r: String)
        ensures
            r@ == "["@ + decimal(self.code as int) + "] "@ + self.message@,
    {
        let mut r = "[".to_owned();
        let number = int_to_string(self.code);
        r.append(number.as_str());
        r.append("] ");
        r.append(self.message.as_str());
        r
    }
}

/// padeg case number: 1 is the nominative (no change), 2 to 6 the five cases;
/// `None` for any other number.
pub open spec fn padeg_case(padeg: i32) -> Option<Option<Case>> {
    if padeg == 1 {
        Some(None)
    } else if padeg == 2 {
        Some(Some(Case::Genitive))
    } else if padeg == 3 {
        Some(Some(Case::Dative))
    } else if padeg == 4 {
        Some(Some(Case::Accusative))
    } else if padeg == 5 {
        Some(Some(Case::Instrumental))
    } else if padeg == 6 {
        Some(Some(Case::Prepositional))
    } else {
        None
    }
}

/// padeg sex string: empty, `auto` or `авто` (after trimming and lowercasing)
/// mean "detect"; otherwise the first letter decides (`м`/`m` masculine,
/// `ж`/`f`/`w` feminine); `None` when it is none of these.
pub open spec fn parsed_sex(sex: Seq<char>) -> Option<Option<Gender>> {
    let n = lowercase(trim(sex));
    if n.len() == 0 || n == "auto"@ || n == "авто"@ {
        Some(None)
    } else if n[0] == 'м' || n[0] == 'm' {
        Some(Some(Gender::Male))
    } else if n[0] == 'ж' || n[0] == 'f' || n[0] == 'w' {
        Some(Some(Gender::Female))
    } else {
        None
    }
}

/// Maps a padeg case number to a case (`Ok(None)` for the nominative).
pub fn case_of(padeg: i32) -> (r: Result<Option<Case>, PadegError>)
    ensures
        match r {
            Ok(c) => padeg_case(padeg) == Some(c),
            Err(e) => padeg_case(padeg) is None && is_bad_padeg(e, padeg),
        },
{
    match padeg {
        1 => Ok(None),
        2 => Ok(Some(Case::Genitive)),
        3 => Ok(Some(Case::Dative)),
        4 => Ok(Some(Case::Accusative)),
        5 => Ok(Some(Case::Instrumental)),
        6 => Ok(Some(Case::Prepositional)),
        other => Err(PadegError::bad_padeg(other)),
    }
}

/// Parses a padeg sex string (`Ok(None)`: detect the gender).
pub fn sex_of(sex: &str) -> (r: Result<Option<Gender>, PadegError>)
    ensures
        match r {
            Ok(g) => parsed_sex(sex@) == Some(g),
            Err(e) => parsed_sex(sex@) is None && is_bad_sex(e, sex@),
        },
{
    let trimmed = trim_str(sex);
    let normalized = to_lower(trimmed.as_str());
    let n = normalized.as_str();
    if n.is_empty() || str_eq(n, "auto") || str_eq(n, "авто") {
        return Ok(None);
    }
    let first = n.get_char(0);
    if first == 'м' || first == 'm' {
        return Ok(Some(Gender::Male));
    }
    if first == 'ж' || first == 'f' || first == 'w' {
        return Ok(Some(Gender::Female));
    }
    Err(PadegError::bad_sex(sex))
}

/// The `i`-th whitespace-separated word of `s`, if there is one.
pub open spec fn word_at(s: Seq<char>, i: int) -> Option<Seq<char>> {
    if 0 <= i < words(s).len() {
        Some(words(s)[i])
    } else {
        None
    }
}

/// Splits "Фамилия Имя Отчество" by position: the first three words; extra
/// words on the right are ignored, missing ones are `None`.
pub fn split_fio<'a>(fio: &'a str) -> (r: (Option<&'a str>, Option<&'a str>, Option<&'a str>))
    ensures
        opt_view(r.0) == word_at(fio@, 0),
        opt_view(r.1) == word_at(fio@, 1),
        opt_view(r.2) == word_at(fio@, 2),
{
    let ws = word_slices(fio);
    let n = ws.len();
    assert(ws.deep_view().len() == n);
    let ln = if n > 0 {
        assert(ws.deep_view()[0] == ws[0]@);
        Some(ws[0])
    } else {
        None
    };
    let fn_ = if n > 1 {
        assert(ws.deep_view()[1] == ws[1]@);
        Some(ws[1])
    } else {
        None
    };
    let mn = if n > 2 {
        assert(ws.deep_view()[2] == ws[2]@);
        Some(ws[2])
    } else {
        None
    };
    (ln, fn_, mn)
}

/// padeg sex code of a gender: 1 masculine, 0 feminine, -1 unknown.
pub open spec fn sex_code(g: Gender) -> i32 {
    match g {
        Gender::Male => 1,
        Gender::Female => 0,
        Gender::Androgynous => -1i32,
    }
}

/// The first of `a`, `b`, `c` that is present.
pub open spec fn first_present(a: Option<Seq<char>>, b: Option<Seq<char>>, c: Option<Seq<char>>) -> Option<
    Seq<char>,
> {
    if a is Some {
        a
    } else if b is Some {
        b
    } else {
        c
    }
}

/// padeg sex code of a full name: detection over the positional parts; when
/// that cannot tell, the last word tried as a middle name.
pub open spec fn spec_get_sex(fio: Seq<char>) -> i32 {
    let ln = word_at(fio, 0);
    let fn_ = word_at(fio, 1);
    let mn = word_at(fio, 2);
    match spec_detect_gender(ln, fn_, mn) {
        Gender::Androgynous => match first_present(mn, fn_, ln) {
            Some(w) => sex_code(spec_detect_gender(None, None, Some(w))),
            None => -1i32,
        },
        g => sex_code(g),
    }
}

fn code_of(g: Gender) -> (r: i32)
    ensures
        r == sex_code(g),
{
    match g {
        Gender::Male => 1,
        Gender::Female => 0,
        Gender::Androgynous => -1,
    }
}

/// `GetSex(FIO)`: 1 masculine, 0 feminine, -1 unknown.
pub fn get_sex(fio: &str) -> (r: i32)
    ensures
        r == spec_get_sex(fio@),
{
    let (ln, fn_, mn) = split_fio(fio);
    match detect_gender(ln, fn_, mn) {
        Gender::Androgynous => {
            let last = match mn {
                Some(w) => Some(w),
                None => match fn_ {
                    Some(w) => Some(w),
                    None => ln,
                },
            };
            match last {
                Some(w) => code_of(detect_gender(None, None, Some(w))),
                None => -1,
            }
        },
        g => code_of(g),
    }
}

/// One optional name part, inflected, as a list of zero or one words.
pub open spec fn opt_part(kind: NamePart, gender: Gender, part: Option<Seq<char>>, case: Option<
    Case,
>) -> Seq<Seq<char>> {
    match part {
        Some(p) => seq![spec_inflect_opt(kind, gender, p, case)],
        None => seq![],
    }
}

/// The present parts of a full name, inflected and joined by spaces, in the
/// order last, first, middle.
pub open spec fn declined_fio(
    ln: Option<Seq<char>>,
    fn_: Option<Seq<char>>,
    mn: Option<Seq<char>>,
    gender: Gender,
    case: Option<Case>,
) -> Seq<char> {
    join(
        opt_part(NamePart::Last, gender, ln, case) + opt_part(NamePart::First, gender, fn_, case)
            + opt_part(NamePart::Middle, gender, mn, case),
        " "@,
    )
}

/// The explicit gender, or the detected one.
pub open spec fn chosen_gender(
    explicit: Option<Gender>,
    ln: Option<Seq<char>>,
    fn_: Option<Seq<char>>,
    mn: Option<Seq<char>>,
) -> Gender {
    match explicit {
        Some(g) => g,
        None => spec_detect_gender(ln, fn_, mn),
    }
}

/// The value inside an `Option` known to be present.
pub open spec fn some_of<T>(o: Option<T>) -> T
    recommends
        o is Some,
{
    o.unwrap()
}

/// Errors of a method that takes a sex string and a case number: the case
/// number is checked first.
pub open spec fn is_input_error(e: PadegError, sex: Seq<char>, padeg: i32) -> bool {
    if padeg_case(padeg) is None {
        is_bad_padeg(e, padeg)
    } else {
        parsed_sex(sex) is None && is_bad_sex(e, sex)
    }
}

/// Both the sex string and the case number are understood.
pub open spec fn inputs_ok(sex: Seq<char>, padeg: i32) -> bool {
    padeg_case(padeg) is Some && parsed_sex(sex) is Some
}

/// The error of a method that takes a sex string and a case number, as
/// (code, message); `None` when both are understood.
pub open spec fn input_failure(sex: Seq<char>, padeg: i32) -> Option<(i32, Seq<char>)> {
    if padeg_case(padeg) is None {
        Some((CODE_BAD_PADEG, bad_padeg_message(padeg)))
    } else if parsed_sex(sex) is None {
        Some((CODE_BAD_SEX, bad_sex_message(sex)))
    } else {
        None
    }
}

/// The error of a method that takes a case number only, as (code, message).
pub open spec fn case_failure(padeg: i32) -> Option<(i32, Seq<char>)> {
    if padeg_case(padeg) is None {
        Some((CODE_BAD_PADEG, bad_padeg_message(padeg)))
    } else {
        None
    }
}

/// Result of `GetFIOPadegFS` for an accepted sex and case.
pub open spec fn fio_padeg_fs_text(fio: Seq<char>, sex: Seq<char>, padeg: i32) -> Seq<char> {
    declined_fio(
        word_at(fio, 0),
        word_at(fio, 1),
        word_at(fio, 2),
        chosen_gender(some_of(parsed_sex(sex)), word_at(fio, 0), word_at(fio, 1), word_at(fio, 2)),
        some_of(padeg_case(padeg)),
    )
}

/// Result of `GetFIOPadeg` for an accepted sex and case.
pub open spec fn fio_padeg_text(
    lastname: Seq<char>,
    firstname: Seq<char>,
    middlename: Seq<char>,
    sex: Seq<char>,
    padeg: i32,
) -> Seq<char> {
    declined_fio(
        norm(lastname),
        norm(firstname),
        norm(middlename),
        chosen_gender(some_of(parsed_sex(sex)), norm(lastname), norm(firstname), norm(middlename)),
        some_of(padeg_case(padeg)),
    )
}

fn decline_fio(
    ln: Option<&str>,
    fn_: Option<&str>,
    mn: Option<&str>,
    gender: Gender,
    case: Option<Case>,
) -> (r: String)
    ensures
        r@ == declined_fio(opt_view(ln), opt_view(fn_), opt_view(mn), gender, case),
{
    let mut out: Vec<String> = Vec::new();
    if let Some(p) = ln {
        out.push(inflect_opt(NamePart::Last, gender, p, case));
    }
    let ghost a = out.deep_view();
    assert(a =~= opt_part(NamePart::Last, gender, opt_view(ln), case));
    if let Some(p) = fn_ {
        out.push(inflect_opt(NamePart::First, gender, p, case));
    }
    let ghost b = out.deep_view();
    assert(b =~= a + opt_part(NamePart::First, gender, opt_view(fn_), case));
    if let Some(p) = mn {
        out.push(inflect_opt(NamePart::Middle, gender, p, case));
    }
    assert(out.deep_view() =~= b + opt_part(NamePart::Middle, gender, opt_view(mn), case));
    join_strings(&out, " ")
}

/// `GetFIOPadegFS(FIO, Sex, Padeg)`: declension of "Фамилия Имя Отчество".
pub fn get_fio_padeg_fs(fio: &str, sex: &str, padeg: i32) -> (r: Result<String, PadegError>)
    ensures
        match r {
            Ok(s) => inputs_ok(sex@, padeg) && s@ == fio_padeg_fs_text(fio@, sex@, padeg),
            Err(e) => !inputs_ok(sex@, padeg) && is_input_error(e, sex@, padeg),
        },
{
    let case = match case_of(padeg) {
        Ok(c) => c,
        Err(e) => return Err(e),
    };
    let explicit = match sex_of(sex) {
        Ok(g) => g,
        Err(e) => return Err(e),
    };
    let (ln, fn_, mn) = split_fio(fio);
    if ln.is_none() && fn_.is_none() && mn.is_none() {
        return Ok(String::new());
    }
    let gender = match explicit {
        Some(g) => g,
        None => detect_gender(ln, fn_, mn),
    };
    Ok(decline_fio(ln, fn_, mn, gender, case))
}

/// A name part after trimming; an empty one is absent.
pub open spec fn norm(s: Seq<char>) -> Option<Seq<char>> {
    if trim(s).len() == 0 {
        None
    } else {
        Some(trim(s))
    }
}

/// A name part after trimming; an empty one is absent.
fn norm_part(s: &str) -> (r: Option<String>)
    ensures
        match r {
            Some(t) => norm(s@) == Some(t@),
            None => norm(s@) is None,
        },
{
    let t = trim_str(s);
    if t.as_str().is_empty() {
        None
    } else {
        Some(t)
    }
}

fn as_opt_str(o: &Option<String>) -> (r: Option<&str>)
    ensures
        opt_view(r) == match o {
            Some(s) => Some(s@),
            None => None::<Seq<char>>,
        },
{
    match o {
        Some(s) => Some(s.as_str()),
        None => None,
    }
}

/// `GetFIOPadeg(LN, FN, MN, Sex, Padeg)`: the three parts as separate strings.
pub fn get_fio_padeg(
    lastname: &str,
    firstname: &str,
    middlename: &str,
    sex: &str,
    padeg: i32,
) -> (r: Result<String, PadegError>)
    ensures
        match r {
            Ok(s) => inputs_ok(sex@, padeg) && s@ == fio_padeg_text(
                lastname@,
                firstname@,
                middlename@,
                sex@,
                padeg,
            ),
            Err(e) => !inputs_ok(sex@, padeg) && is_input_error(e, sex@, padeg),
        },
{
    let case = match case_of(padeg) {
        Ok(c) => c,
        Err(e) => return Err(e),
    };
    let explicit = match sex_of(sex) {
        Ok(g) => g,
        Err(e) => return Err(e),
    };
    let ln_owned = norm_part(lastname);
    let fn_owned = norm_part(firstname);
    let mn_owned = norm_part(middlename);
    let ln = as_opt_str(&ln_owned);
    let fn_ = as_opt_str(&fn_owned);
    let mn = as_opt_str(&mn_owned);
    if ln.is_none() && fn_.is_none() && mn.is_none() {
        return Ok(String::new());
    }
    let gender = match explicit {
        Some(g) => g,
        None => detect_gender(ln, fn_, mn),
    };
    Ok(decline_fio(ln, fn_, mn, gender, case))
}

/// First name then last name, inflected and joined by a space; the gender is
/// detected from (last, first) unless given.
pub open spec fn declined_if(
    firstname: Seq<char>,
    lastname: Seq<char>,
    explicit: Option<Gender>,
    case: Option<Case>,
) -> Seq<char> {
    let fn_ = norm(firstname);
    let ln = norm(lastname);
    let gender = chosen_gender(explicit, ln, fn_, None);
    join(
        opt_part(NamePart::First, gender, fn_, case) + opt_part(NamePart::Last, gender, ln, case),
        " "@,
    )
}

/// Result of `GetIFPadeg` for an accepted sex and case.
pub open spec fn if_padeg_text(firstname: Seq<char>, lastname: Seq<char>, sex: Seq<char>, padeg: i32) -> Seq<
    char,
> {
    declined_if(firstname, lastname, some_of(parsed_sex(sex)), some_of(padeg_case(padeg)))
}

/// `GetIFPadeg(FN, LN, Sex, Padeg)`: "Имя Фамилия" order.
pub fn get_if_padeg(firstname: &str, lastname: &str, sex: &str, padeg: i32) -> (r: Result<
    String,
    PadegError,
>)
    ensures
        match r {
            Ok(s) => inputs_ok(sex@, padeg) && s@ == if_padeg_text(firstname@, lastname@, sex@, padeg),
            Err(e) => !inputs_ok(sex@, padeg) && is_input_error(e, sex@, padeg),
        },
{
    let case = match case_of(padeg) {
        Ok(c) => c,
        Err(e) => return Err(e),
    };
    let explicit = match sex_of(sex) {
        Ok(g) => g,
        Err(e) => return Err(e),
    };
    let fn_owned = norm_part(firstname);
    let ln_owned = norm_part(lastname);
    let fn_ = as_opt_str(&fn_owned);
    let ln = as_opt_str(&ln_owned);
    if fn_.is_none() && ln.is_none() {
        return Ok(String::new());
    }
    let gender = match explicit {
        Some(g) => g,
        None => detect_gender(ln, fn_, None),
    };
    let mut out: Vec<String> = Vec::new();
    if let Some(p) = fn_ {
        out.push(inflect_opt(NamePart::First, gender, p, case));
    }
    let ghost a = out.deep_view();
    assert(a =~= opt_part(NamePart::First, gender, opt_view(fn_), case));
    if let Some(p) = ln {
        out.push(inflect_opt(NamePart::Last, gender, p, case));
    }
    assert(out.deep_view() =~= a + opt_part(NamePart::Last, gender, opt_view(ln), case));
    Ok(join_strings(&out, " "))
}

/// `out` with `middle` inserted after its first word (after the first space),
/// or appended when `out` has no space.
pub open spec fn insert_middle(out: Seq<char>, middle: Seq<char>) -> Seq<char> {
    match first_index_of(out, ' ') {
        Some(k) => out.take(k) + " "@ + middle + " "@ + out.skip(k + 1),
        None => out + " "@ + middle,
    }
}

/// (first name, last name) of an "Имя … Фамилия" word list: the first word
/// and the last word.
pub open spec fn if_names(ws: Seq<Seq<char>>) -> (Seq<char>, Seq<char>) {
    if ws.len() == 0 {
        (Seq::empty(), Seq::empty())
    } else if ws.len() == 1 {
        (ws[0], Seq::empty())
    } else {
        (ws[0], ws.last())
    }
}

/// Result of `GetIFPadegFS` for an accepted sex and case: the first and last
/// words declined, the words between them inserted unchanged.
pub open spec fn declined_if_fs(s: Seq<char>, explicit: Option<Gender>, case: Option<Case>) -> Seq<
    char,
> {
    let ws = words(s);
    let names = if_names(ws);
    let out = declined_if(names.0, names.1, explicit, case);
    if ws.len() > 2 {
        insert_middle(out, join(ws.subrange(1, ws.len() - 1), " "@))
    } else {
        out
    }
}

/// Result of `GetIFPadegFS` for an accepted sex and case.
pub open spec fn if_padeg_fs_text(s: Seq<char>, sex: Seq<char>, padeg: i32) -> Seq<char> {
    declined_if_fs(s, some_of(parsed_sex(sex)), some_of(padeg_case(padeg)))
}

/// `GetIFPadegFS("Имя Фамилия", Sex, Padeg)`: the last word is the last name,
/// every word before it a first name; only the first of them is declined.
pub fn get_if_padeg_fs(if_: &str, sex: &str, padeg: i32) -> (r: Result<String, PadegError>)
    ensures
        match r {
            Ok(s) => inputs_ok(sex@, padeg) && s@ == if_padeg_fs_text(if_@, sex@, padeg),
            Err(e) => !inputs_ok(sex@, padeg) && is_input_error(e, sex@, padeg),
        },
{
    let ws = word_slices(if_);
    let n = ws.len();
    let ghost wv = ws.deep_view();
    assert(wv == words(if_@));
    let (first, last) = if n == 0 {
        ("", "")
    } else if n == 1 {
        (ws[0], "")
    } else {
        (ws[0], ws[n - 1])
    };
    proof {
        reveal_strlit("");
        if n >= 1 {
            assert(wv[0] == ws[0]@);
        }
        if n >= 2 {
            assert(wv.last() == ws[n - 1]@);
        }
        assert(first@ == if_names(wv).0);
        assert(last@ == if_names(wv).1);
    }
    let out = match get_if_padeg(first, last, sex, padeg) {
        Ok(s) => s,
        Err(e) => return Err(e),
    };
    if n > 2 {
        let mut middle_words: Vec<&str> = Vec::new();
        let mut i: usize = 1;
        while i < n - 1
            invariant
                n == ws.len(),
                n > 2,
                wv == ws.deep_view(),
                1 <= i <= n - 1,
                middle_words.deep_view() =~= wv.subrange(1, i as int),
            decreases n - 1 - i,
        {
            let ghost before = middle_words.deep_view();
            middle_words.push(ws[i]);
            assert(wv[i as int] == ws[i as int]@);
            assert(middle_words.deep_view() =~= before.push(wv[i as int]));
            i = i + 1;
        }
        let owned_middle = to_owned_all(&middle_words);
        let middle = join_strings(&owned_middle, " ");
        match find_char(out.as_str(), ' ') {
            Some(k) => {
                let len = out.as_str().unicode_len();
                let head = out.as_str().substring_char(0, k);
                let tail = out.as_str().substring_char(k + 1, len);
                let mut r = head.to_owned();
                r.append(" ");
                r.append(middle.as_str());
                r.append(" ");
                r.append(tail);
                proof {
                    assert(head@ =~= out@.take(k as int));
                    assert(tail@ =~= out@.skip(k + 1));
                }
                Ok(r)
            },
            None => {
                let mut r = out;
                r.append(" ");
                r.append(middle.as_str());
                Ok(r)
            },
        }
    } else {
        Ok(out)
    }
}

/// A word of `s` by position, or the empty string.
pub open spec fn word_or_empty(s: Seq<char>, i: int) -> Seq<char> {
    match word_at(s, i) {
        Some(w) => w,
        None => Seq::empty(),
    }
}

/// `GetFIOParts(FIO)`: (last, first, middle) by position; missing parts empty.
pub fn get_fio_parts(fio: &str) -> (r: (String, String, String))
    ensures
        r.0@ == word_or_empty(fio@, 0),
        r.1@ == word_or_empty(fio@, 1),
        r.2@ == word_or_empty(fio@, 2),
{
    let (ln, fn_, mn) = split_fio(fio);
    let a = match ln {
        Some(w) => w.to_owned(),
        None => String::new(),
    };
    let b = match fn_ {
        Some(w) => w.to_owned(),
        None => String::new(),
    };
    let c = match mn {
        Some(w) => w.to_owned(),
        None => String::new(),
    };
    (a, b, c)
}

/// `GetPadegID(FIO)`: detecting the case of a name would need reverse
/// declension, which the engine does not have; always an error.
pub fn get_padeg_id(_fio: &str) -> (r: Result<i32, PadegError>)
    ensures
        match r {
            Ok(_) => false,
            Err(e) => e.code == CODE_BAD_PADEG && e.message@ == padeg_id_message(),
        },
{
    Err(
        PadegError {
            code: CODE_BAD_PADEG,
            message: "GetPadegID не поддерживается: нужно обратное склонение (см. PLAN-COM-API.md)".to_owned(),
        },
    )
}

/// `UpdateExceptions`: the rules are built in, nothing to reload; success.
pub fn update_exceptions() -> (r: bool)
    ensures
        r,
{
    true
}

/// `GetExceptionsFileName`: there is no external dictionary; empty.
pub fn get_exceptions_file_name() -> (r: String)
    ensures
        r@ == Seq::<char>::empty(),
{
    String::new()
}

/// `SetDictionary(path)`: external dictionaries are not supported; failure.
pub fn set_dictionary(_path: &str) -> (r: bool)
    ensures
        !r,
{
    false
}

/// `GetAppointmentPadeg(Appointment, Padeg)`: a job title declined.
pub fn get_appointment_padeg(appointment: &str, padeg: i32) -> (r: Result<String, PadegError>)
    ensures
        match r {
            Ok(s) => padeg_case(padeg) is Some && s@ == decline_text(
                appointment@,
                some_of(padeg_case(padeg)),
            ),
            Err(e) => padeg_case(padeg) is None && is_bad_padeg(e, padeg),
        },
{
    let case = match case_of(padeg) {
        Ok(c) => c,
        Err(e) => return Err(e),
    };
    Ok(decline_appointment(appointment, case))
}

/// `GetOfficePadeg(Office, Padeg)`: a department declined like a job title.
pub fn get_office_padeg(office: &str, padeg: i32) -> (r: Result<String, PadegError>)
    ensures
        match r {
            Ok(s) => padeg_case(padeg) is Some && s@ == decline_text(
                office@,
                some_of(padeg_case(padeg)),
            ),
            Err(e) => padeg_case(padeg) is None && is_bad_padeg(e, padeg),
        },
{
    let case = match case_of(padeg) {
        Ok(c) => c,
        Err(e) => return Err(e),
    };
    Ok(decline_office(office, case))
}

/// `GetFullAppointmentPadeg(Appointment, Office, Padeg)`: title and department
/// merged without repeated words, then declined as a title.
pub fn get_full_appointment_padeg(appointment: &str, office: &str, padeg: i32) -> (r: Result<
    String,
    PadegError,
>)
    ensures
        match r {
            Ok(s) => padeg_case(padeg) is Some && s@ == decline_text(
                spec_merge(appointment@, office@),
                some_of(padeg_case(padeg)),
            ),
            Err(e) => padeg_case(padeg) is None && is_bad_padeg(e, padeg),
        },
{
    let case = match case_of(padeg) {
        Ok(c) => c,
        Err(e) => return Err(e),
    };
    Ok(decline_full_appointment(appointment, office, case))
}

/// `GetNominativePadeg(FIO)`: there is no reverse declension, so the input
/// comes back unchanged (for the usual flow, where the input already is in
/// the nominative, this is the answer).
pub fn get_nominative_padeg(fio: &str) -> (r: String)
    ensures
        r@ == fio@,
{
    fio.to_owned()
}

// ---------------------------------------------------------------------------
// Laws
// ---------------------------------------------------------------------------

/// In the nominative a full name keeps its first three words, whatever the
/// gender: they come back joined by single spaces.
pub proof fn law_nominative_keeps_full_name(fio: Seq<char>, gender: Gender)
    ensures
        declined_fio(word_at(fio, 0), word_at(fio, 1), word_at(fio, 2), gender, None) == join(
            words(fio).take(
                if words(fio).len() < 3 {
                    words(fio).len() as int
                } else {
                    3
                },
            ),
            " "@,
        ),
{
    let ws = words(fio);
    let k: int = if ws.len() < 3 {
        ws.len() as int
    } else {
        3
    };
    let parts = opt_part(NamePart::Last, gender, word_at(fio, 0), None) + opt_part(
        NamePart::First,
        gender,
        word_at(fio, 1),
        None,
    ) + opt_part(NamePart::Middle, gender, word_at(fio, 2), None);
    assert(parts =~= ws.take(k));
}

/// With the sex left to detection, "Имя Фамилия" is declined exactly as with
/// the sex given explicitly as the gender that detection from the last name
/// and the first name (in that order) yields.
pub proof fn law_if_auto_sex_detects_from_last_and_first_name(
    firstname: Seq<char>,
    lastname: Seq<char>,
    case: Option<Case>,
)
    ensures
        declined_if(firstname, lastname, None, case) == declined_if(
            firstname,
            lastname,
            Some(spec_detect_gender(norm(lastname), norm(firstname), None)),
            case,
        ),
{
}

/// `GetIFPadeg` with an auto sex declines with the gender detected from the
/// last name and the first name.
pub proof fn law_get_if_padeg_auto_sex(firstname: Seq<char>, lastname: Seq<char>, sex: Seq<char>, padeg: i32)
    requires
        parsed_sex(sex) == Some(None::<Gender>),
    ensures
        if_padeg_text(firstname, lastname, sex, padeg) == declined_if(
            firstname,
            lastname,
            Some(spec_detect_gender(norm(lastname), norm(firstname), None)),
            some_of(padeg_case(padeg)),
        ),
{
    law_if_auto_sex_detects_from_last_and_first_name(firstname, lastname, some_of(padeg_case(padeg)));
}

/// `GetFIOPadegFS` with an auto sex declines with the gender detected from
/// the last, first and middle name in their positions; with an explicit sex
/// it declines with that gender.
pub proof fn law_fio_padeg_fs_gender(fio: Seq<char>, sex: Seq<char>, padeg: i32)
    requires
        parsed_sex(sex) is Some,
    ensures
        fio_padeg_fs_text(fio, sex, padeg) == declined_fio(
            word_at(fio, 0),
            word_at(fio, 1),
            word_at(fio, 2),
            match parsed_sex(sex)->0 {
                Some(g) => g,
                None => spec_detect_gender(word_at(fio, 0), word_at(fio, 1), word_at(fio, 2)),
            },
            some_of(padeg_case(padeg)),
        ),
{
}

/// `GetFIOPadeg` with an auto sex declines with the gender detected from the
/// trimmed last, first and middle name; with an explicit sex it declines
/// with that gender.
pub proof fn law_fio_padeg_gender(
    lastname: Seq<char>,
    firstname: Seq<char>,
    middlename: Seq<char>,
    sex: Seq<char>,
    padeg: i32,
)
    requires
        parsed_sex(sex) is Some,
    ensures
        fio_padeg_text(lastname, firstname, middlename, sex, padeg) == declined_fio(
            norm(lastname),
            norm(firstname),
            norm(middlename),
            match parsed_sex(sex)->0 {
                Some(g) => g,
                None => spec_detect_gender(norm(lastname), norm(firstname), norm(middlename)),
            },
            some_of(padeg_case(padeg)),
        ),
{
}

} // verus!
