//! Grammatical cases and the name-inflection engine of the `petrovich` crate.

use vstd::prelude::*;

use crate::gender::Gender;
use crate::text::{join, join_strings, list_contains, listed, lowercase, split_on, split_str, to_lower};

verus! {

/// Grammatical case to inflect into (the nominative is the input form itself).
#[derive(PartialEq, Eq, Clone, Copy, Debug, Structural)]
pub enum Case {
    /// Genitive: "кого? чего?".
    Genitive,
    /// Dative: "кому? чему?".
    Dative,
    /// Accusative: "кого? что?".
    Accusative,
    /// Instrumental: "кем? чем?".
    Instrumental,
    /// Prepositional: "о ком? о чём?".
    Prepositional,
}

/// What `petrovich::lastname` returns for these arguments.
pub uninterp spec fn inflected_lastname(gender: Gender, name: Seq<char>, case: Case) -> Seq<char>;

/// What `petrovich::firstname` returns for these arguments.
pub uninterp spec fn inflected_firstname(gender: Gender, name: Seq<char>, case: Case) -> Seq<char>;

/// What `petrovich::middlename` returns for these arguments.
pub uninterp spec fn inflected_middlename(gender: Gender, name: Seq<char>, case: Case) -> Seq<
    char,
>;

/// Calls `petrovich::lastname` with the same gender, name and case. The
/// contract only names the result (`inflected_lastname`); the rule tables of
/// the crate are not restated.
#[verifier::external_body]
pub(crate) fn lastname(gender: Gender, name: &str, case: Case) -> (r: String)
    ensures
        r@ == inflected_lastname(gender, name@, case),
{
    let g = match gender {
        Gender::Male => petrovich::Gender::Male,
        Gender::Female => petrovich::Gender::Female,
        Gender::Androgynous => petrovich::Gender::Androgynous,
    };
    let c = match case {
        Case::Genitive => petrovich::Case::Genitive,
        Case::Dative => petrovich::Case::Dative,
        Case::Accusative => petrovich::Case::Accusative,
        Case::Instrumental => petrovich::Case::Instrumental,
        Case::Prepositional => petrovich::Case::Prepositional,
    };
    petrovich::lastname(g, name, c)
}

/// Calls `petrovich::firstname` with the same gender, name and case. The
/// contract only names the result (`inflected_firstname`).
#[verifier::external_body]
pub(crate) fn firstname(gender: Gender, name: &str, case: Case) -> (r: String)
    ensures
        r@ == inflected_firstname(gender, name@, case),
{
    let g = match gender {
        Gender::Male => petrovich::Gender::Male,
        Gender::Female => petrovich::Gender::Female,
        Gender::Androgynous => petrovich::Gender::Androgynous,
    };
    let c = match case {
        Case::Genitive => petrovich::Case::Genitive,
        Case::Dative => petrovich::Case::Dative,
        Case::Accusative => petrovich::Case::Accusative,
        Case::Instrumental => petrovich::Case::Instrumental,
        Case::Prepositional => petrovich::Case::Prepositional,
    };
    petrovich::firstname(g, name, c)
}

/// Calls `petrovich::middlename` with the same gender, name and case. The
/// contract only names the result (`inflected_middlename`).
#[verifier::external_body]
pub(crate) fn middlename(gender: Gender, name: &str, case: Case) -> (r: String)
    ensures
        r@ == inflected_middlename(gender, name@, case),
{
    let g = match gender {
        Gender::Male => petrovich::Gender::Male,
        Gender::Female => petrovich::Gender::Female,
        Gender::Androgynous => petrovich::Gender::Androgynous,
    };
    let c = match case {
        Case::Genitive => petrovich::Case::Genitive,
        Case::Dative => petrovich::Case::Dative,
        Case::Accusative => petrovich::Case::Accusative,
        Case::Instrumental => petrovich::Case::Instrumental,
        Case::Prepositional => petrovich::Case::Prepositional,
    };
    petrovich::middlename(g, name, c)
}

/// Which part of a full name a word is.
#[derive(PartialEq, Eq, Clone, Copy, Debug, Structural)]
pub enum NamePart {
    /// Last name (surname).
    Last,
    /// First name.
    First,
    /// Middle name (patronymic).
    Middle,
}

/// First parts of double last names that never change ("фон", "тер", …):
/// every hyphen part of a last name that is one of them stays as it is.
///
/// The engine's rule tables mark these exceptions as valid for the first
/// hyphen part only; this library applies them to every part (the rules
/// carry no such tag here). That is why `inflect` splits a name at its
/// hyphens itself, keeps these parts, and hands every other part to the
/// engine on its own.
pub const UNCHANGED_LASTNAME_PARTS: [&'static str; 15] = [
    "бонч",
    "абдул",
    "белиц",
    "гасан",
    "дюссар",
    "дюмон",
    "книппер",
    "корвин",
    "ван",
    "шолом",
    "тер",
    "призван",
    "мелик",
    "вар",
    "фон",
];

/// Hyphen parts of middle names that never change.
pub const UNCHANGED_MIDDLENAME_PARTS: [&'static str; 1] = ["борух"];

/// The hyphen parts (lowercased) that stay unchanged for a kind of name part.
pub open spec fn unchanged_parts(kind: NamePart) -> Seq<&'static str> {
    match kind {
        NamePart::Last => UNCHANGED_LASTNAME_PARTS@,
        NamePart::First => Seq::empty(),
        NamePart::Middle => UNCHANGED_MIDDLENAME_PARTS@,
    }
}

/// One hyphen part inflected by the engine's rules for its kind.
pub open spec fn engine_inflect(kind: NamePart, gender: Gender, part: Seq<char>, case: Case) -> Seq<
    char,
> {
    match kind {
        NamePart::Last => inflected_lastname(gender, part, case),
        NamePart::First => inflected_firstname(gender, part, case),
        NamePart::Middle => inflected_middlename(gender, part, case),
    }
}

/// One hyphen part inflected: unchanged when it is one of `unchanged_parts`
/// (compared lowercased), otherwise by the engine.
pub open spec fn inflect_part(kind: NamePart, gender: Gender, part: Seq<char>, case: Case) -> Seq<
    char,
> {
    if listed(unchanged_parts(kind), lowercase(part)) {
        part
    } else {
        engine_inflect(kind, gender, part, case)
    }
}

/// A name part inflected into `case`: every hyphen part on its own, joined
/// again by hyphens.
#[verifier::opaque]
pub open spec fn spec_inflect(kind: NamePart, gender: Gender, name: Seq<char>, case: Case) -> Seq<
    char,
> {
    join(
        split_on(name, seq!['-']).map_values(|part: Seq<char>| inflect_part(kind, gender, part, case)),
        seq!['-'],
    )
}

/// A name part in the requested case; `None` (nominative) keeps it as it is.
pub open spec fn spec_inflect_opt(kind: NamePart, gender: Gender, name: Seq<char>, case: Option<
    Case,
>) -> Seq<char> {
    match case {
        Some(c) => spec_inflect(kind, gender, name, c),
        None => name,
    }
}

fn engine_part(kind: NamePart, gender: Gender, part: &str, case: Case) -> (r: String)
    ensures
        r@ == engine_inflect(kind, gender, part@, case),
{
    match kind {
        NamePart::Last => lastname(gender, part, case),
        NamePart::First => firstname(gender, part, case),
        NamePart::Middle => middlename(gender, part, case),
    }
}

/// Inflects a name part into `case` (see `spec_inflect`).
pub fn inflect(kind: NamePart, gender: Gender, name: &str, case: Case) -> (r: String)
    ensures
        r@ == spec_inflect(kind, gender, name@, case),
{
    proof {
        reveal_strlit("-");
        assert("-"@ =~= seq!['-']);
    }
    let parts = split_str(name, "-");
    let ghost ps = parts.deep_view();
    let unchanged: &[&'static str] = match kind {
        NamePart::Last => &UNCHANGED_LASTNAME_PARTS,
        NamePart::First => &[],
        NamePart::Middle => &UNCHANGED_MIDDLENAME_PARTS,
    };
    assert(unchanged@ =~= unchanged_parts(kind));
    let mut out: Vec<String> = Vec::new();
    let mut i: usize = 0;
    while i < parts.len()
        invariant
            i <= parts.len(),
            ps == parts.deep_view(),
            ps == split_on(name@, seq!['-']),
            unchanged@ == unchanged_parts(kind),
            out.deep_view() =~= ps.take(i as int).map_values(
                |part: Seq<char>| inflect_part(kind, gender, part, case),
            ),
        decreases parts.len() - i,
    {
        let part = parts[i].as_str();
        assert(ps[i as int] == part@);
        let lower = to_lower(part);
        let ghost before = out.deep_view();
        if list_contains(unchanged, lower.as_str()) {
            out.push(part.to_owned());
        } else {
            out.push(engine_part(kind, gender, part, case));
        }
        assert(ps.take(i + 1) =~= ps.take(i as int).push(ps[i as int]));
        assert(out.deep_view() =~= before.push(inflect_part(kind, gender, ps[i as int], case)));
        i = i + 1;
    }
    assert(ps.take(parts.len() as int) =~= ps);
    proof {
        reveal(spec_inflect);
    }
    join_strings(&out, "-")
}

/// A name part in the requested case; `None` (nominative) copies it.
pub fn inflect_opt(kind: NamePart, gender: Gender, name: &str, case: Option<Case>) -> (r: String)
    ensures
        r@ == spec_inflect_opt(kind, gender, name@, case),
{
    match case {
        Some(c) => inflect(kind, gender, name, c),
        None => name.to_owned(),
    }
}

} // verus!
