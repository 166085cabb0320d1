//! Gender detection from any combination of name parts.

use vstd::prelude::*;

use crate::gender_rules::{
    FIRSTNAME_EXCEPTIONS, FIRSTNAME_SUFFIXES, LASTNAME_EXCEPTIONS, LASTNAME_SUFFIXES,
    MIDDLENAME_EXCEPTIONS, MIDDLENAME_SUFFIXES,
};
use crate::text::{
    ends_with, lemma_split_on_absent, lemma_split_on_last_piece, lowercase, split_on, split_str,
    str_ends_with, str_eq, to_lower,
};

verus! {

/// Grammatical gender of a name.
#[derive(PartialEq, Eq, Clone, Copy, Debug, Structural)]
pub enum Gender {
    /// Masculine.
    Male,
    /// Feminine.
    Female,
    /// Cannot be told (names such as "Саша", indeclinable surnames).
    Androgynous,
}

/// Rules for one kind of name part: exact-match exceptions and suffixes.
pub struct GenderHeuristic {
    /// Exact-match exceptions; lookup takes the last matching entry.
    pub exceptions: &'static [(&'static str, Gender)],
    /// Suffix rules in priority order; lookup takes the first matching entry.
    pub suffixes: &'static [(&'static str, Gender)],
}

/// Gender of the last exception whose name is exactly `part`.
pub open spec fn exception_vote(ex: Seq<(&'static str, Gender)>, part: Seq<char>) -> Option<
    Gender,
>
    decreases ex.len(),
{
    if ex.len() == 0 {
        None
    } else if ex.last().0@ == part {
        Some(ex.last().1)
    } else {
        exception_vote(ex.drop_last(), part)
    }
}

/// Gender of the first suffix rule that `part` ends with.
pub open spec fn suffix_vote(sx: Seq<(&'static str, Gender)>, part: Seq<char>) -> Option<Gender>
    decreases sx.len(),
{
    if sx.len() == 0 {
        None
    } else if ends_with(part, sx[0].0@) {
        Some(sx[0].1)
    } else {
        suffix_vote(sx.drop_first(), part)
    }
}

/// `Some(g)` as `g`, nothing as `Androgynous`.
pub open spec fn or_androgynous(v: Option<Gender>) -> Gender {
    match v {
        Some(g) => g,
        None => Gender::Androgynous,
    }
}

/// The hyphen-separated pieces of a name.
pub open spec fn hyphen_parts(name: Seq<char>) -> Seq<Seq<char>> {
    split_on(name, seq!['-'])
}

impl GenderHeuristic {
    /// Vote of one (lowercased) part: an exact exception first, then a suffix.
    pub open spec fn vote(&self, part: Seq<char>) -> Option<Gender> {
        match exception_vote(self.exceptions@, part) {
            Some(g) => Some(g),
            None => suffix_vote(self.suffixes@, part),
        }
    }

    /// Gender of a whole name: every hyphen part votes, the last part wins,
    /// a part that no rule fires for votes `Androgynous`.
    pub open spec fn spec_detect(&self, name: Seq<char>) -> Gender {
        or_androgynous(self.vote(lowercase(hyphen_parts(name).last())))
    }

    /// Vote of a single (lowercased) hyphen part; `None` when no rule fires.
    pub fn match_part(&self, part: &str) -> (r: Option<Gender>)
        ensures
            r == self.vote(part@),
    {
        let ex = self.exceptions;
        let mut j: usize = ex.len();
        assert(ex@.take(j as int) =~= ex@);
        while j > 0
            invariant
                ex@ == self.exceptions@,
                j <= ex@.len(),
                exception_vote(ex@, part@) == exception_vote(ex@.take(j as int), part@),
            decreases j,
        {
            let (name, gender) = ex[j - 1];
            proof {
                assert(ex@.take(j as int).drop_last() =~= ex@.take(j - 1));
                assert(ex@.take(j as int).last() == ex@[j - 1]);
            }
            if str_eq(name, part) {
                return Some(gender);
            }
            j = j - 1;
        }
        assert(ex@.take(0) =~= Seq::<(&'static str, Gender)>::empty());
        let sx = self.suffixes;
        let mut i: usize = 0;
        assert(sx@.skip(0) =~= sx@);
        while i < sx.len()
            invariant
                sx@ == self.suffixes@,
                i <= sx@.len(),
                exception_vote(self.exceptions@, part@) is None,
                suffix_vote(sx@, part@) == suffix_vote(sx@.skip(i as int), part@),
            decreases sx@.len() - i,
        {
            let (suffix, gender) = sx[i];
            proof {
                assert(sx@.skip(i as int)[0] == sx@[i as int]);
                assert(sx@.skip(i as int).drop_first() =~= sx@.skip(i + 1));
            }
            if str_ends_with(part, suffix) {
                return Some(gender);
            }
            i = i + 1;
        }
        assert(sx@.skip(sx@.len() as int) =~= Seq::<(&'static str, Gender)>::empty());
        None
    }

    /// Gender of a whole name under these rules (see `spec_detect`).
    pub fn detect_gender(&self, name: &str) -> (g: Gender)
        ensures
            g == self.spec_detect(name@),
    {
        proof {
            reveal_strlit("-");
            assert("-"@ =~= seq!['-']);
        }
        let parts = split_str(name, "-");
        proof {
            crate::text::lemma_split_on_nonempty(name@, seq!['-']);
        }
        let mut vote = Gender::Androgynous;
        let mut i: usize = 0;
        while i < parts.len()
            invariant
                i <= parts.len(),
                parts.deep_view() == hyphen_parts(name@),
                i > 0 ==> vote == or_androgynous(self.vote(lowercase(parts[i - 1]@))),
            decreases parts.len() - i,
        {
            let lower = to_lower(parts[i].as_str());
            vote = match self.match_part(lower.as_str()) {
                Some(g) => g,
                None => Gender::Androgynous,
            };
            i = i + 1;
        }
        assert(parts.deep_view().last() == parts[parts.len() - 1]@);
        vote
    }
}

/// Rules for last names.
pub open spec fn lastname_heuristic() -> GenderHeuristic {
    GenderHeuristic { exceptions: &LASTNAME_EXCEPTIONS, suffixes: &LASTNAME_SUFFIXES }
}

/// Rules for first names.
pub open spec fn firstname_heuristic() -> GenderHeuristic {
    GenderHeuristic { exceptions: &FIRSTNAME_EXCEPTIONS, suffixes: &FIRSTNAME_SUFFIXES }
}

/// Rules for middle names.
pub open spec fn middlename_heuristic() -> GenderHeuristic {
    GenderHeuristic { exceptions: &MIDDLENAME_EXCEPTIONS, suffixes: &MIDDLENAME_SUFFIXES }
}

/// Builds the rules for last names.
fn lastname_rules() -> (h: GenderHeuristic)
    ensures
        h == lastname_heuristic(),
{
    GenderHeuristic { exceptions: &LASTNAME_EXCEPTIONS, suffixes: &LASTNAME_SUFFIXES }
}

/// Builds the rules for first names.
fn firstname_rules() -> (h: GenderHeuristic)
    ensures
        h == firstname_heuristic(),
{
    GenderHeuristic { exceptions: &FIRSTNAME_EXCEPTIONS, suffixes: &FIRSTNAME_SUFFIXES }
}

/// Builds the rules for middle names.
fn middlename_rules() -> (h: GenderHeuristic)
    ensures
        h == middlename_heuristic(),
{
    GenderHeuristic { exceptions: &MIDDLENAME_EXCEPTIONS, suffixes: &MIDDLENAME_SUFFIXES }
}

/// The characters of an optional string.
pub open spec fn opt_view(o: Option<&str>) -> Option<Seq<char>> {
    match o {
        Some(s) => Some(s@),
        None => None,
    }
}

/// Vote of one optional name part; an absent or empty part votes nothing.
pub open spec fn part_vote(h: GenderHeuristic, name: Option<Seq<char>>) -> Option<Gender> {
    match name {
        Some(s) => if s.len() > 0 {
            Some(h.spec_detect(lowercase(s)))
        } else {
            None
        },
        None => None,
    }
}

/// The vote is `Male` or `Female`.
pub open spec fn decided(v: Option<Gender>) -> bool {
    v == Some(Gender::Male) || v == Some(Gender::Female)
}

/// The common value of the present votes when there is at least one and they all agree.
pub open spec fn unanimous(a: Option<Gender>, b: Option<Gender>, c: Option<Gender>) -> Option<
    Gender,
> {
    let first = if a is Some {
        a
    } else if b is Some {
        b
    } else {
        c
    };
    if first is Some && (a is None || a == first) && (b is None || b == first) && (c is None || c
        == first) {
        first
    } else {
        None
    }
}

/// How the three votes decide: a decided middle name wins; then a decided first
/// name against an androgynous last name, or a decided last name against an
/// androgynous first name; then the agreeing votes; otherwise `Androgynous`.
pub open spec fn combine_votes(ln: Option<Gender>, fn_: Option<Gender>, mn: Option<Gender>) -> Gender {
    if decided(mn) {
        or_androgynous(mn)
    } else if decided(fn_) && ln == Some(Gender::Androgynous) {
        or_androgynous(fn_)
    } else if decided(ln) && fn_ == Some(Gender::Androgynous) {
        or_androgynous(ln)
    } else {
        or_androgynous(unanimous(ln, fn_, mn))
    }
}

/// Gender of a person from the optional last, first and middle name.
pub open spec fn spec_detect_gender(
    lastname: Option<Seq<char>>,
    firstname: Option<Seq<char>>,
    middlename: Option<Seq<char>>,
) -> Gender {
    combine_votes(
        part_vote(lastname_heuristic(), lastname),
        part_vote(firstname_heuristic(), firstname),
        part_vote(middlename_heuristic(), middlename),
    )
}

fn vote_of(h: &GenderHeuristic, name: Option<&str>) -> (r: Option<Gender>)
    ensures
        r == part_vote(*h, opt_view(name)),
{
    match name {
        Some(n) => {
            if n.is_empty() {
                None
            } else {
                let lower = to_lower(n);
                Some(h.detect_gender(lower.as_str()))
            }
        },
        None => None,
    }
}

fn push_vote(uniq: &mut Vec<Gender>, vote: Option<Gender>)
    ensures
        match vote {
            Some(g) => if old(uniq)@.contains(g) {
                final(uniq)@ == old(uniq)@
            } else {
                final(uniq)@ == old(uniq)@.push(g)
            },
            None => final(uniq)@ == old(uniq)@,
        },
{
    if let Some(g) = vote {
        let mut k: usize = 0;
        let mut found = false;
        while k < uniq.len()
            invariant
                k <= uniq@.len(),
                uniq@ == old(uniq)@,
                found <==> exists|j: int| 0 <= j < k && uniq@[j] == g,
            decreases uniq@.len() - k,
        {
            if uniq[k] == g {
                found = true;
            }
            k = k + 1;
        }
        if !found {
            uniq.push(g);
        }
    }
}

/// Detects the gender of a person from any combination of name parts; empty
/// parts are ignored.
pub fn detect_gender(lastname: Option<&str>, firstname: Option<&str>, middlename: Option<&str>) -> (g:
    Gender)
    ensures
        g == spec_detect_gender(opt_view(lastname), opt_view(firstname), opt_view(middlename)),
{
    let ln = vote_of(&lastname_rules(), lastname);
    let fn_ = vote_of(&firstname_rules(), firstname);
    let mn = vote_of(&middlename_rules(), middlename);
    match mn {
        Some(Gender::Male) => return Gender::Male,
        Some(Gender::Female) => return Gender::Female,
        _ => {},
    }
    let mut uniq: Vec<Gender> = Vec::new();
    push_vote(&mut uniq, ln);
    push_vote(&mut uniq, fn_);
    push_vote(&mut uniq, mn);
    if uniq.len() > 1 {
        match (ln, fn_) {
            (Some(Gender::Androgynous), Some(Gender::Male)) => return Gender::Male,
            (Some(Gender::Androgynous), Some(Gender::Female)) => return Gender::Female,
            (Some(Gender::Male), Some(Gender::Androgynous)) => return Gender::Male,
            (Some(Gender::Female), Some(Gender::Androgynous)) => return Gender::Female,
            _ => {},
        }
    }
    if uniq.len() == 1 {
        return uniq[0];
    }
    Gender::Androgynous
}

// ---------------------------------------------------------------------------
// Laws
// ---------------------------------------------------------------------------

/// A hyphenated name takes the gender of its last part: whatever stands in
/// front of a hyphen does not change the outcome.
pub proof fn law_last_hyphen_part_decides(h: GenderHeuristic, front: Seq<char>, back: Seq<char>)
    ensures
        h.spec_detect(front + seq!['-'] + back) == h.spec_detect(back),
{
    lemma_split_on_last_piece(front, '-', back);
}

/// A name without a hyphen is judged as a single part: an exact exception
/// first, then a suffix, otherwise `Androgynous`.
pub proof fn law_unhyphenated_name_is_one_part(h: GenderHeuristic, name: Seq<char>)
    requires
        forall|i: int| 0 <= i < name.len() ==> name[i] != '-',
    ensures
        h.spec_detect(name) == or_androgynous(h.vote(lowercase(name))),
{
    assert forall|i: int| 0 <= i && i + 1 <= name.len() implies #[trigger] name.subrange(i, i + 1)
        != seq!['-'] by {
        assert(name.subrange(i, i + 1)[0] == name[i]);
    }
    lemma_split_on_absent(name, seq!['-']);
}

/// An empty name part counts as an absent one, in every position.
pub proof fn law_empty_part_is_absent(
    lastname: Option<Seq<char>>,
    firstname: Option<Seq<char>>,
    middlename: Option<Seq<char>>,
)
    ensures
        spec_detect_gender(Some(Seq::empty()), firstname, middlename) == spec_detect_gender(
            None,
            firstname,
            middlename,
        ),
        spec_detect_gender(lastname, Some(Seq::empty()), middlename) == spec_detect_gender(
            lastname,
            None,
            middlename,
        ),
        spec_detect_gender(lastname, firstname, Some(Seq::empty())) == spec_detect_gender(
            lastname,
            firstname,
            None,
        ),
{
}

/// A middle name whose gender is determined decides, whatever the other parts say.
pub proof fn law_decided_middle_name_wins(
    lastname: Option<Seq<char>>,
    firstname: Option<Seq<char>>,
    middlename: Option<Seq<char>>,
)
    requires
        decided(part_vote(middlename_heuristic(), middlename)),
    ensures
        spec_detect_gender(lastname, firstname, middlename) == or_androgynous(
            part_vote(middlename_heuristic(), middlename),
        ),
{
}

/// A single given part is judged by the rules for its kind alone.
pub proof fn law_single_part(name: Seq<char>)
    requires
        name.len() > 0,
    ensures
        spec_detect_gender(Some(name), None, None) == lastname_heuristic().spec_detect(
            lowercase(name),
        ),
        spec_detect_gender(None, Some(name), None) == firstname_heuristic().spec_detect(
            lowercase(name),
        ),
        spec_detect_gender(None, None, Some(name)) == middlename_heuristic().spec_detect(
            lowercase(name),
        ),
{
}

/// When the present parts all agree on a gender, that gender is the answer.
pub proof fn law_agreeing_parts(
    lastname: Option<Seq<char>>,
    firstname: Option<Seq<char>>,
    middlename: Option<Seq<char>>,
    g: Gender,
)
    requires
        part_vote(lastname_heuristic(), lastname) is Some || part_vote(
            firstname_heuristic(),
            firstname,
        ) is Some || part_vote(middlename_heuristic(), middlename) is Some,
        part_vote(lastname_heuristic(), lastname) is None || part_vote(
            lastname_heuristic(),
            lastname,
        ) == Some(g),
        part_vote(firstname_heuristic(), firstname) is None || part_vote(
            firstname_heuristic(),
            firstname,
        ) == Some(g),
        part_vote(middlename_heuristic(), middlename) is None || part_vote(
            middlename_heuristic(),
            middlename,
        ) == Some(g),
    ensures
        spec_detect_gender(lastname, firstname, middlename) == g,
{
}

/// The answer is `Androgynous` or the gender that one of the given parts points to.
pub proof fn law_answer_comes_from_a_part(
    lastname: Option<Seq<char>>,
    firstname: Option<Seq<char>>,
    middlename: Option<Seq<char>>,
)
    ensures
        ({
            let g = spec_detect_gender(lastname, firstname, middlename);
            ||| g == Gender::Androgynous
            ||| part_vote(lastname_heuristic(), lastname) == Some(g)
            ||| part_vote(firstname_heuristic(), firstname) == Some(g)
            ||| part_vote(middlename_heuristic(), middlename) == Some(g)
        }),
{
}

/// When no middle name decides, a first name that points to a gender wins
/// over a last name that cannot tell.
pub proof fn law_first_name_decides_against_androgynous_last_name(
    lastname: Seq<char>,
    firstname: Seq<char>,
    middlename: Option<Seq<char>>,
)
    requires
        part_vote(lastname_heuristic(), Some(lastname)) == Some(Gender::Androgynous),
        part_vote(firstname_heuristic(), Some(firstname)) == Some(Gender::Male) || part_vote(
            firstname_heuristic(),
            Some(firstname),
        ) == Some(Gender::Female),
        part_vote(middlename_heuristic(), middlename) != Some(Gender::Male),
        part_vote(middlename_heuristic(), middlename) != Some(Gender::Female),
    ensures
        spec_detect_gender(Some(lastname), Some(firstname), middlename) == or_androgynous(
            part_vote(firstname_heuristic(), Some(firstname)),
        ),
{
}

/// When no middle name decides, a last name that points to a gender wins
/// over a first name that cannot tell.
pub proof fn law_last_name_decides_against_androgynous_first_name(
    lastname: Seq<char>,
    firstname: Seq<char>,
    middlename: Option<Seq<char>>,
)
    requires
        part_vote(firstname_heuristic(), Some(firstname)) == Some(Gender::Androgynous),
        part_vote(lastname_heuristic(), Some(lastname)) == Some(Gender::Male) || part_vote(
            lastname_heuristic(),
            Some(lastname),
        ) == Some(Gender::Female),
        part_vote(middlename_heuristic(), middlename) != Some(Gender::Male),
        part_vote(middlename_heuristic(), middlename) != Some(Gender::Female),
    ensures
        spec_detect_gender(Some(lastname), Some(firstname), middlename) == or_androgynous(
            part_vote(lastname_heuristic(), Some(lastname)),
        ),
{
}

} // verus!
