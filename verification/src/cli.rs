//! Decisions of the command-line tool: case and gender options, one name to
//! a line of output, and the lines of a TSV batch.

use vstd::prelude::*;

use crate::adapter::declined_fio;
use crate::appointment::{decline_appointment, decline_full_appointment, decline_text, spec_merge};
use crate::gender::{detect_gender, opt_view, spec_detect_gender, Gender};
use crate::inflect::{inflect, Case, NamePart};
use crate::text::{digits, join_strings, split_on, split_str, trim, trim_str};
use crate::web::{gender_name, gender_text};

verus! {

/// Value of `--case`.
#[derive(Clone, Copy, PartialEq, Eq, Debug, Structural)]
pub enum CaseArg {
    Nominative,
    Genitive,
    Dative,
    Accusative,
    Instrumental,
    Prepositional,
}

/// The case a `--case` value selects (`None`: nominative).
pub open spec fn spec_case_arg(a: CaseArg) -> Option<Case> {
    match a {
        CaseArg::Nominative => None,
        CaseArg::Genitive => Some(Case::Genitive),
        CaseArg::Dative => Some(Case::Dative),
        CaseArg::Accusative => Some(Case::Accusative),
        CaseArg::Instrumental => Some(Case::Instrumental),
        CaseArg::Prepositional => Some(Case::Prepositional),
    }
}

impl CaseArg {
    /// The case to inflect into (`None`: nominative).
    pub fn case(self) -> (r: Option<Case>)
        ensures
            r == spec_case_arg(self),
    {
        match self {
            CaseArg::Nominative => None,
            CaseArg::Genitive => Some(Case::Genitive),
            CaseArg::Dative => Some(Case::Dative),
            CaseArg::Accusative => Some(Case::Accusative),
            CaseArg::Instrumental => Some(Case::Instrumental),
            CaseArg::Prepositional => Some(Case::Prepositional),
        }
    }
}

/// Value of `--gender`.
#[derive(Clone, Copy, PartialEq, Eq, Debug, Structural)]
pub enum GenderArg {
    Auto,
    Male,
    Female,
    Androgynous,
}

/// The name options (`--lastname`, `--firstname`, `--middlename`).
pub struct NameArgs {
    pub lastname: Option<String>,
    pub firstname: Option<String>,
    pub middlename: Option<String>,
}

/// Characters of an optional owned string.
pub open spec fn opt_chars(o: Option<String>) -> Option<Seq<char>> {
    match o {
        Some(s) => Some(s@),
        None => None,
    }
}

/// An option that is given and not empty.
pub open spec fn given(o: Option<Seq<char>>) -> Option<Seq<char>> {
    match o {
        Some(s) => if s.len() > 0 {
            Some(s)
        } else {
            None
        },
        None => None,
    }
}

impl NameArgs {
    /// (last, first, middle) as character sequences.
    pub open spec fn views(&self) -> (Option<Seq<char>>, Option<Seq<char>>, Option<Seq<char>>) {
        (opt_chars(self.lastname), opt_chars(self.firstname), opt_chars(self.middlename))
    }

    /// None of the three options is given with a value.
    pub open spec fn is_blank(&self) -> bool {
        given(self.views().0) is None && given(self.views().1) is None && given(
            self.views().2,
        ) is None
    }
}

/// The gender a `--gender` value selects for a name (`auto`: detected).
pub open spec fn spec_resolve(a: GenderArg, name: NameArgs) -> Gender {
    match a {
        GenderArg::Auto => spec_detect_gender(name.views().0, name.views().1, name.views().2),
        GenderArg::Male => Gender::Male,
        GenderArg::Female => Gender::Female,
        GenderArg::Androgynous => Gender::Androgynous,
    }
}

fn as_str_opt(o: &Option<String>) -> (r: Option<&str>)
    ensures
        opt_view(r) == opt_chars(*o),
{
    match o {
        Some(s) => Some(s.as_str()),
        None => None,
    }
}

impl GenderArg {
    /// The gender to inflect with.
    pub fn resolve(self, name: &NameArgs) -> (g: Gender)
        ensures
            g == spec_resolve(self, *name),
    {
        match self {
            GenderArg::Auto => detect_gender(
                as_str_opt(&name.lastname),
                as_str_opt(&name.firstname),
                as_str_opt(&name.middlename),
            ),
            GenderArg::Male => Gender::Male,
            GenderArg::Female => Gender::Female,
            GenderArg::Androgynous => Gender::Androgynous,
        }
    }
}

/// An option that is given and not empty.
fn non_empty(value: &Option<String>) -> (r: Option<&str>)
    ensures
        opt_view(r) == given(opt_chars(*value)),
{
    match value {
        Some(s) => if s.as_str().is_empty() {
            None
        } else {
            Some(s.as_str())
        },
        None => None,
    }
}

/// Message when no name part is given.
pub open spec fn missing_name_message() -> Seq<char> {
    "at least one of --lastname/--firstname/--middlename is required"@
}

/// The given parts inflected into `case`, in the order last, first, middle.
fn decline_parts(name: &NameArgs, gender: Gender, case: Case) -> (r: Vec<String>)
    ensures
        r.deep_view() == crate::adapter::opt_part(
            NamePart::Last,
            gender,
            given(name.views().0),
            Some(case),
        ) + crate::adapter::opt_part(NamePart::First, gender, given(name.views().1), Some(case))
            + crate::adapter::opt_part(
            NamePart::Middle,
            gender,
            given(name.views().2),
            Some(case),
        ),
{
    let mut out: Vec<String> = Vec::new();
    if let Some(p) = non_empty(&name.lastname) {
        out.push(inflect(NamePart::Last, gender, p, case));
    }
    let ghost a = out.deep_view();
    assert(a =~= crate::adapter::opt_part(
        NamePart::Last,
        gender,
        given(name.views().0),
        Some(case),
    ));
    if let Some(p) = non_empty(&name.firstname) {
        out.push(inflect(NamePart::First, gender, p, case));
    }
    let ghost b = out.deep_view();
    assert(b =~= a + crate::adapter::opt_part(
        NamePart::First,
        gender,
        given(name.views().1),
        Some(case),
    ));
    if let Some(p) = non_empty(&name.middlename) {
        out.push(inflect(NamePart::Middle, gender, p, case));
    }
    assert(out.deep_view() =~= b + crate::adapter::opt_part(
        NamePart::Middle,
        gender,
        given(name.views().2),
        Some(case),
    ));
    out
}

/// One output line of `decline`: the given parts in `case` (unchanged for
/// the nominative) joined by spaces; an error when no part is given.
pub fn decline_line(name: &NameArgs, gender: Gender, case: Option<Case>) -> (r: Result<
    String,
    String,
>)
    ensures
        match r {
            Ok(s) => !name.is_blank() && s@ == declined_fio(
                given(name.views().0),
                given(name.views().1),
                given(name.views().2),
                gender,
                case,
            ),
            Err(m) => name.is_blank() && m@ == missing_name_message(),
        },
{
    let ln = non_empty(&name.lastname);
    let fn_ = non_empty(&name.firstname);
    let mn = non_empty(&name.middlename);
    if ln.is_none() && fn_.is_none() && mn.is_none() {
        return Err("at least one of --lastname/--firstname/--middlename is required".to_owned());
    }
    match case {
        None => {
            let mut parts: Vec<String> = Vec::new();
            if let Some(p) = ln {
                parts.push(p.to_owned());
            }
            let ghost a = parts.deep_view();
            assert(a =~= crate::adapter::opt_part(NamePart::Last, gender, opt_view(ln), None));
            if let Some(p) = fn_ {
                parts.push(p.to_owned());
            }
            let ghost b = parts.deep_view();
            assert(b =~= a + crate::adapter::opt_part(
                NamePart::First,
                gender,
                opt_view(fn_),
                None,
            ));
            if let Some(p) = mn {
                parts.push(p.to_owned());
            }
            assert(parts.deep_view() =~= b + crate::adapter::opt_part(
                NamePart::Middle,
                gender,
                opt_view(mn),
                None,
            ));
            Ok(join_strings(&parts, " "))
        },
        Some(case) => {
            let parts = decline_parts(name, gender, case);
            Ok(join_strings(&parts, " "))
        },
    }
}

/// Output of `gender`: the detected gender of the given parts.
pub fn gender_line(name: &NameArgs) -> (r: Result<&'static str, String>)
    ensures
        match r {
            Ok(s) => !name.is_blank() && s@ == gender_text(
                spec_detect_gender(given(name.views().0), given(name.views().1), given(name.views().2)),
            ),
            Err(m) => name.is_blank() && m@ == missing_name_message(),
        },
{
    let ln = non_empty(&name.lastname);
    let fn_ = non_empty(&name.firstname);
    let mn = non_empty(&name.middlename);
    if ln.is_none() && fn_.is_none() && mn.is_none() {
        return Err("at least one of --lastname/--firstname/--middlename is required".to_owned());
    }
    Ok(gender_name(detect_gender(ln, fn_, mn)))
}

/// The `i`-th tab-separated field of a batch line, empty when missing.
pub open spec fn field_at(line: Seq<char>, i: int) -> Seq<char> {
    let fields = split_on(line, seq!['\t']);
    if 0 <= i < fields.len() {
        fields[i]
    } else {
        Seq::empty()
    }
}

/// The name a batch line holds: its first three tab-separated fields.
pub fn batch_name(line: &str) -> (r: NameArgs)
    ensures
        r.views() == (
            Some(field_at(line@, 0)),
            Some(field_at(line@, 1)),
            Some(field_at(line@, 2)),
        ),
{
    proof {
        reveal_strlit("\t");
        assert("\t"@ =~= seq!['\t']);
    }
    let fields = split_str(line, "\t");
    let ghost fv = fields.deep_view();
    let n = fields.len();
    let ln = if n > 0 {
        assert(fv[0] == fields[0]@);
        fields[0].clone()
    } else {
        String::new()
    };
    let fn_ = if n > 1 {
        assert(fv[1] == fields[1]@);
        fields[1].clone()
    } else {
        String::new()
    };
    let mn = if n > 2 {
        assert(fv[2] == fields[2]@);
        fields[2].clone()
    } else {
        String::new()
    };
    NameArgs { lastname: Some(ln), firstname: Some(fn_), middlename: Some(mn) }
}

/// Decimal digits of a line number.
fn number_text(n: usize) -> (r: String)
    ensures
        r@ == digits(n as nat),
{
    let mut s = String::new();
    crate::text::push_digits(&mut s, n as u64);
    s
}

/// Output of one batch line (`line_number` counts from 1): `None` for a blank
/// line, the declined name otherwise, or the error prefixed with the line number.
pub fn batch_line(line_number: usize, line: &str, gender: GenderArg, case: Option<Case>) -> (r:
    Result<Option<String>, String>)
    ensures
        trim(line@).len() == 0 ==> r == Ok::<Option<String>, String>(None),
        trim(line@).len() > 0 ==> ({
            let ln = field_at(line@, 0);
            let fn_ = field_at(line@, 1);
            let mn = field_at(line@, 2);
            let blank = ln.len() == 0 && fn_.len() == 0 && mn.len() == 0;
            let g = match gender {
                GenderArg::Auto => spec_detect_gender(Some(ln), Some(fn_), Some(mn)),
                GenderArg::Male => Gender::Male,
                GenderArg::Female => Gender::Female,
                GenderArg::Androgynous => Gender::Androgynous,
            };
            match r {
                Ok(Some(s)) => !blank && s@ == declined_fio(
                    given(Some(ln)),
                    given(Some(fn_)),
                    given(Some(mn)),
                    g,
                    case,
                ),
                Ok(None) => false,
                Err(m) => blank && m@ == "line "@ + digits(line_number as nat) + ": "@
                    + missing_name_message(),
            }
        }),
{
    let trimmed = trim_str(line);
    if trimmed.as_str().is_empty() {
        return Ok(None);
    }
    let name = batch_name(line);
    let g = gender.resolve(&name);
    match decline_line(&name, g, case) {
        Ok(s) => Ok(Some(s)),
        Err(e) => {
            let mut m = "line ".to_owned();
            let number = number_text(line_number);
            m.append(number.as_str());
            m.append(": ");
            m.append(e.as_str());
            Err(m)
        },
    }
}

/// What `appoint` prints: the title declined; a department, when given and
/// not empty, is first merged after the title without repeated words.
pub open spec fn spec_appoint_line(appointment: Seq<char>, office: Option<Seq<char>>, case: Option<
    Case,
>) -> Seq<char> {
    match given(office) {
        Some(o) => decline_text(spec_merge(appointment, o), case),
        None => decline_text(appointment, case),
    }
}

/// Output of `appoint` (see `spec_appoint_line`).
pub fn appoint_line(appointment: &str, office: Option<&str>, case: Option<Case>) -> (r: String)
    ensures
        r@ == spec_appoint_line(appointment@, opt_view(office), case),
{
    match office {
        Some(o) => if o.is_empty() {
            decline_appointment(appointment, case)
        } else {
            decline_full_appointment(appointment, o, case)
        },
        None => decline_appointment(appointment, case),
    }
}

/// Message when a batch line of `appoint` has no job title.
pub open spec fn missing_appointment_message() -> Seq<char> {
    "appointment is required"@
}

/// Output of one `appoint` batch line (`line_number` counts from 1; the line is
/// `title<TAB>department`): `None` for a blank line, the declined title
/// otherwise, or an error with the line number when the title field is empty.
pub fn appoint_batch_line(line_number: usize, line: &str, case: Option<Case>) -> (r: Result<
    Option<String>,
    String,
>)
    ensures
        trim(line@).len() == 0 ==> r == Ok::<Option<String>, String>(None),
        trim(line@).len() > 0 ==> match r {
            Ok(Some(s)) => field_at(line@, 0).len() > 0 && s@ == spec_appoint_line(
                field_at(line@, 0),
                Some(field_at(line@, 1)),
                case,
            ),
            Ok(None) => false,
            Err(m) => field_at(line@, 0).len() == 0 && m@ == "line "@ + digits(line_number as nat)
                + ": "@ + missing_appointment_message(),
        },
{
    let trimmed = trim_str(line);
    if trimmed.as_str().is_empty() {
        return Ok(None);
    }
    let fields = batch_name(line);
    let appointment = match fields.lastname {
        Some(a) => a,
        None => String::new(),
    };
    let office = match fields.firstname {
        Some(o) => o,
        None => String::new(),
    };
    if appointment.as_str().is_empty() {
        let mut m = "line ".to_owned();
        let number = number_text(line_number);
        m.append(number.as_str());
        m.append(": ");
        m.append("appointment is required");
        return Err(m);
    }
    Ok(Some(appoint_line(appointment.as_str(), Some(office.as_str()), case)))
}

} // verus!
