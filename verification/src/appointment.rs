//! Declension of job titles and departments.
//!
//! Only the first word of every `' - '`-separated segment is declined, the
//! rest stays as it is; "title + department" merging drops the department
//! words already present in the title.

use vstd::prelude::*;

use crate::gender::{detect_gender, opt_view, spec_detect_gender, Gender};
use crate::inflect::{inflect, spec_inflect, Case, NamePart};
use crate::text::{
    ends_with, join, join_strings, list_contains, listed, lemma_split_on_absent, lowercase, split_on,
    split_str, split_words, str_ends_with, str_eq, to_lower, words,
};

verus! {

/// Masculine nouns ending in a consonant that name persons (animate): their
/// accusative equals the genitive ("вижу директора").
pub const ANIMATE_TITLES: [&'static str; 40] = [
    "директор",
    "менеджер",
    "инженер",
    "бухгалтер",
    "секретарь",
    "заместитель",
    "руководитель",
    "начальник",
    "специалист",
    "продавец",
    "врач",
    "учитель",
    "мастер",
    "редактор",
    "конструктор",
    "технолог",
    "экономист",
    "юрист",
    "водитель",
    "охранник",
    "курьер",
    "агент",
    "кассир",
    "кладовщик",
    "грузчик",
    "слесарь",
    "токарь",
    "повар",
    "официант",
    "администратор",
    "оператор",
    "программист",
    "дизайнер",
    "тренер",
    "доктор",
    "профессор",
    "студент",
    "клиент",
    "пациент",
    "свидетель",
];

/// Common-gender words in -а/-я that are masculine in a job title
/// ("судья вынес решение").
pub const MASCULINE_A_WORDS: [&'static str; 9] = [
    "судья",
    "коллега",
    "староста",
    "сирота",
    "папа",
    "дядя",
    "дедушка",
    "мужчина",
    "юноша",
];

/// `s` is non-empty and its last character is `c`.
pub open spec fn ends_with_char(s: Seq<char>, c: char) -> bool {
    s.len() > 0 && s.last() == c
}

/// Animacy of a (lowercased) head word for the accusative: adjectives in
/// -ий/-ый/-ой and the persons of `ANIMATE_TITLES`.
pub open spec fn spec_is_animate_head(head_lower: Seq<char>) -> bool {
    ||| ends_with(head_lower, "ий"@)
    ||| ends_with(head_lower, "ый"@)
    ||| ends_with(head_lower, "ой"@)
    ||| listed(ANIMATE_TITLES@, head_lower)
}

/// Gender of a head word: the last-name heuristics, and when they cannot
/// tell, -а/-я words are feminine except `MASCULINE_A_WORDS`, others masculine.
pub open spec fn spec_head_gender(word: Seq<char>) -> Gender {
    match spec_detect_gender(Some(word), None, None) {
        Gender::Androgynous => {
            let lower = lowercase(word);
            if listed(MASCULINE_A_WORDS@, lower) {
                Gender::Male
            } else if ends_with_char(lower, 'а') || ends_with_char(lower, 'я') {
                Gender::Female
            } else {
                Gender::Male
            }
        },
        g => g,
    }
}

/// One head word declined: an inanimate masculine word keeps its form in the
/// accusative, every other word goes through the last-name rules.
pub open spec fn spec_decline_head(word: Seq<char>, case: Case) -> Seq<char> {
    let gender = spec_head_gender(word);
    if case == Case::Accusative && gender == Gender::Male && !spec_is_animate_head(
        lowercase(word),
    ) {
        word
    } else {
        spec_inflect(NamePart::Last, gender, word, case)
    }
}

/// A segment with its first word declined into `case`: its words joined by
/// single spaces.
pub open spec fn decline_segment(segment: Seq<char>, case: Case) -> Seq<char> {
    let ws = words(segment);
    if ws.len() == 0 {
        Seq::empty()
    } else {
        join(ws.update(0, spec_decline_head(ws[0], case)), " "@)
    }
}

/// A title or department text in the requested case: unchanged for the
/// nominative (`None`), otherwise every `" - "` segment declined on its own.
pub open spec fn decline_text(text: Seq<char>, case: Option<Case>) -> Seq<char> {
    match case {
        None => text,
        Some(c) => join(
            split_on(text, " - "@).map_values(|segment: Seq<char>| decline_segment(segment, c)),
            " - "@,
        ),
    }
}

/// Vowels that stemming strips from the end of a word.
pub open spec fn is_stem_vowel(c: char) -> bool {
    c == 'а' || c == 'е' || c == 'ё' || c == 'и' || c == 'о' || c == 'у' || c == 'ы' || c == 'э'
        || c == 'ю' || c == 'я'
}

/// Word normalised for de-duplication: lowercased, one final vowel cut off.
pub open spec fn stem(word: Seq<char>) -> Seq<char> {
    let lower = lowercase(word);
    if lower.len() > 0 && is_stem_vowel(lower.last()) {
        lower.drop_last()
    } else {
        lower
    }
}

/// Title words followed by the department words whose stem no title word has,
/// joined by single spaces.
pub open spec fn spec_merge(appointment: Seq<char>, office: Seq<char>) -> Seq<char> {
    let title = words(appointment);
    let stems = title.map_values(|w: Seq<char>| stem(w));
    join(title + words(office).filter(|w: Seq<char>| !stems.contains(stem(w))), " "@)
}

/// Animacy of a lowercased head word (see `spec_is_animate_head`).
fn is_animate_head(head_lower: &str) -> (r: bool)
    ensures
        r == spec_is_animate_head(head_lower@),
{
    str_ends_with(head_lower, "ий") || str_ends_with(head_lower, "ый") || str_ends_with(
        head_lower,
        "ой",
    ) || list_contains(&ANIMATE_TITLES, head_lower)
}

/// Is the last character of `s` equal to `c`?
fn last_char_is(s: &str, c: char) -> (r: bool)
    ensures
        r == ends_with_char(s@, c),
{
    let n = s.unicode_len();
    n > 0 && s.get_char(n - 1) == c
}

/// Gender of a head word (see `spec_head_gender`).
fn head_gender(word: &str) -> (g: Gender)
    ensures
        g == spec_head_gender(word@),
{
    match detect_gender(Some(word), None, None) {
        Gender::Androgynous => {
            let lower = to_lower(word);
            if list_contains(&MASCULINE_A_WORDS, lower.as_str()) {
                Gender::Male
            } else if last_char_is(lower.as_str(), 'а') || last_char_is(lower.as_str(), 'я') {
                Gender::Female
            } else {
                Gender::Male
            }
        },
        g => g,
    }
}

/// Declension of one head word of a title or department.
fn decline_head(word: &str, case: Case) -> (r: String)
    ensures
        r@ == spec_decline_head(word@, case),
{
    let gender = head_gender(word);
    if case == Case::Accusative && gender == Gender::Male {
        let lower = to_lower(word);
        if !is_animate_head(lower.as_str()) {
            return word.to_owned();
        }
    }
    inflect(NamePart::Last, gender, word, case)
}

/// Declension of a compound text: every `" - "` segment has its first word
/// declined, the other words unchanged; `None` (the nominative) gives the
/// text back as it is.
fn decline_appointment_text(text: &str, case: Option<Case>) -> (r: String)
    ensures
        r@ == decline_text(text@, case),
{
    let case = match case {
        None => return text.to_owned(),
        Some(c) => c,
    };
    proof {
        reveal_strlit(" - ");
    }
    let segments = split_str(text, " - ");
    let ghost segs = segments.deep_view();
    let mut out: Vec<String> = Vec::new();
    let mut i: usize = 0;
    while i < segments.len()
        invariant
            i <= segments.len(),
            segs == segments.deep_view(),
            segs == split_on(text@, " - "@),
            out.deep_view() =~= segs.take(i as int).map_values(
                |segment: Seq<char>| decline_segment(segment, case),
            ),
        decreases segments.len() - i,
    {
        let mut ws = split_words(segments[i].as_str());
        let ghost before = out.deep_view();
        if ws.len() == 0 {
            out.push(String::new());
        } else {
            let head = decline_head(ws[0].as_str(), case);
            let ghost orig = ws.deep_view();
            ws.set(0, head);
            assert(ws.deep_view() =~= orig.update(0, spec_decline_head(orig[0], case)));
            let joined = join_strings(&ws, " ");
            out.push(joined);
        }
        assert(segs.take(i + 1) =~= segs.take(i as int).push(segs[i as int]));
        assert(out.deep_view() =~= before.push(decline_segment(segs[i as int], case)));
        i = i + 1;
    }
    assert(segs.take(segments.len() as int) =~= segs);
    join_strings(&out, " - ")
}

/// Declension of a job title (`None`: the nominative, the text unchanged).
pub fn decline_appointment(appointment: &str, case: Option<Case>) -> (r: String)
    ensures
        r@ == decline_text(appointment@, case),
{
    decline_appointment_text(appointment, case)
}

/// Declension of a department; the same rules as for a job title.
pub fn decline_office(office: &str, case: Option<Case>) -> (r: String)
    ensures
        r@ == decline_text(office@, case),
{
    decline_appointment_text(office, case)
}

/// Word normalised for de-duplication (see `stem`).
fn stem_word(word: &str) -> (r: String)
    ensures
        r@ == stem(word@),
{
    let lower = to_lower(word);
    let n = lower.as_str().unicode_len();
    if n > 0 {
        let c = lower.as_str().get_char(n - 1);
        if c == 'а' || c == 'е' || c == 'ё' || c == 'и' || c == 'о' || c == 'у' || c == 'ы' || c
            == 'э' || c == 'ю' || c == 'я' {
            let cut = lower.as_str().substring_char(0, n - 1);
            assert(cut@ =~= lower@.drop_last());
            return cut.to_owned();
        }
    }
    lower
}

/// Title and department merged: the department words whose stem already
/// occurs among the title words (case-insensitively) are dropped.
pub fn merge_appointment(appointment: &str, office: &str) -> (r: String)
    ensures
        r@ == spec_merge(appointment@, office@),
{
    let mut merged = split_words(appointment);
    let ghost title = merged.deep_view();
    let ghost stems_spec = title.map_values(|w: Seq<char>| stem(w));
    let mut stems: Vec<String> = Vec::new();
    let mut i: usize = 0;
    while i < merged.len()
        invariant
            i <= merged.len(),
            merged.deep_view() == title,
            stems_spec == title.map_values(|w: Seq<char>| stem(w)),
            stems.deep_view() =~= stems_spec.take(i as int),
        decreases merged.len() - i,
    {
        let s = stem_word(merged[i].as_str());
        let ghost before = stems.deep_view();
        stems.push(s);
        proof {
            assert(merged.deep_view()[i as int] == merged[i as int]@);
            assert(stems_spec[i as int] == stem(title[i as int]));
            assert(stems.deep_view() =~= before.push(stems_spec[i as int]));
            assert(stems_spec.take(i + 1) =~= stems_spec.take(i as int).push(stems_spec[i as int]));
        }
        i = i + 1;
    }
    assert(stems.deep_view() =~= stems_spec);
    let office_words = split_words(office);
    let ghost ow = office_words.deep_view();
    let ghost keep = |w: Seq<char>| !stems_spec.contains(stem(w));
    let mut k: usize = 0;
    while k < office_words.len()
        invariant
            k <= office_words.len(),
            ow == office_words.deep_view(),
            stems.deep_view() == stems_spec,
            keep == (|w: Seq<char>| !stems_spec.contains(stem(w))),
            merged.deep_view() =~= title + ow.take(k as int).filter(keep),
        decreases office_words.len() - k,
    {
        let s = stem_word(office_words[k].as_str());
        let mut found = false;
        let mut j: usize = 0;
        while j < stems.len()
            invariant
                j <= stems.len(),
                stems.deep_view() == stems_spec,
                found <==> exists|t: int| 0 <= t < j && stems_spec[t] == s@,
            decreases stems.len() - j,
        {
            assert(stems.deep_view()[j as int] == stems[j as int]@);
            if stems[j] == s {
                found = true;
            }
            j = j + 1;
        }
        proof {
            reveal(Seq::filter);
            assert(ow.take(k + 1).drop_last() =~= ow.take(k as int));
            assert(ow.take(k + 1).last() == ow[k as int]);
            if found {
                let t = choose|t: int| 0 <= t < stems.len() && stems_spec[t] == s@;
                assert(stems_spec.contains(stem(ow[k as int])));
            } else {
                assert(!stems_spec.contains(stem(ow[k as int])));
            }
        }
        let ghost before = merged.deep_view();
        assert(office_words.deep_view()[k as int] == office_words[k as int]@);
        if !found {
            let w = office_words[k].clone();
            merged.push(w);
            assert(merged.deep_view() =~= before.push(ow[k as int]));
        }
        k = k + 1;
    }
    assert(ow.take(office_words.len() as int) =~= ow);
    join_strings(&merged, " ")
}

/// Declension of a merged "title + department".
pub fn decline_full_appointment(appointment: &str, office: &str, case: Option<Case>) -> (r: String)
    ensures
        r@ == decline_text(spec_merge(appointment@, office@), case),
{
    let merged = merge_appointment(appointment, office);
    decline_appointment_text(merged.as_str(), case)
}

// ---------------------------------------------------------------------------
// Laws
// ---------------------------------------------------------------------------

/// In a title without `" - "` only the first word is declined; the other
/// words stay as they are, separated by single spaces.
pub proof fn law_only_first_word_declined(text: Seq<char>, case: Case)
    requires
        words(text).len() > 0,
        forall|i: int| 0 <= i && i + 3 <= text.len() ==> #[trigger] text.subrange(i, i + 3) != " - "@,
    ensures
        decline_text(text, Some(case)) == join(
            words(text).update(0, spec_decline_head(words(text)[0], case)),
            " "@,
        ),
{
    reveal_strlit(" - ");
    lemma_split_on_absent(text, " - "@);
}

/// Merging with an empty department keeps the title, normalised.
pub proof fn law_merge_with_empty_department(appointment: Seq<char>)
    ensures
        spec_merge(appointment, Seq::empty()) == join(words(appointment), " "@),
{
    let title = words(appointment);
    let stems = title.map_values(|w: Seq<char>| stem(w));
    assert(words(Seq::<char>::empty()) =~= Seq::<Seq<char>>::empty());
    assert(words(Seq::<char>::empty()).filter(|w: Seq<char>| !stems.contains(stem(w)))
        =~= Seq::<Seq<char>>::empty());
    assert(title + Seq::<Seq<char>>::empty() =~= title);
}

/// Only the head words change: in the nominative the text comes back as it
/// is; otherwise every `" - "` segment becomes its words joined by single
/// spaces, with the first word declined and every other word kept.
pub proof fn law_only_head_words_change(text: Seq<char>, case: Option<Case>)
    ensures
        case is None ==> decline_text(text, case) == text,
        case is Some ==> ({
            let segs = split_on(text, " - "@);
            let out = segs.map_values(|segment: Seq<char>| decline_segment(segment, case->0));
            &&& decline_text(text, case) == join(out, " - "@)
            &&& out.len() == segs.len()
            &&& forall|i: int|
                0 <= i < segs.len() && words(segs[i]).len() > 0 ==> #[trigger] out[i] == join(
                    words(segs[i]).update(0, spec_decline_head(words(segs[i])[0], case->0)),
                    " "@,
                )
            &&& forall|i: int|
                0 <= i < segs.len() && words(segs[i]).len() == 0 ==> #[trigger] out[i]
                    == Seq::<char>::empty()
        }),
{
}

/// A head word that is an adjective (lowercased, it ends in -ий, -ый or -ой)
/// is animate: in every case, the accusative included, it goes through the
/// last-name rules and is never kept as it is.
pub proof fn law_adjective_heads_are_always_declined(word: Seq<char>, case: Case)
    requires
        ends_with(lowercase(word), seq!['и', 'й']) || ends_with(lowercase(word), seq!['ы', 'й'])
            || ends_with(lowercase(word), seq!['о', 'й']),
    ensures
        spec_decline_head(word, case) == spec_inflect(
            NamePart::Last,
            spec_head_gender(word),
            word,
            case,
        ),
{
    reveal_strlit("ий");
    reveal_strlit("ый");
    reveal_strlit("ой");
    assert("ий"@ =~= seq!['и', 'й']);
    assert("ый"@ =~= seq!['ы', 'й']);
    assert("ой"@ =~= seq!['о', 'й']);
}

/// The stem of a word whose lowercase form ends in one of the vowels
/// а е ё и о у ы э ю я is that form without the vowel.
pub proof fn law_stem_drops_a_final_vowel(word: Seq<char>, base: Seq<char>, vowel: char)
    requires
        lowercase(word) == base.push(vowel),
        vowel == 'а' || vowel == 'е' || vowel == 'ё' || vowel == 'и' || vowel == 'о' || vowel
            == 'у' || vowel == 'ы' || vowel == 'э' || vowel == 'ю' || vowel == 'я',
    ensures
        stem(word) == base,
{
    assert(base.push(vowel).drop_last() =~= base);
}

/// Two words whose lowercase forms differ only in a final vowel (such as
/// "группы" and "Группа") have the same stem.
pub proof fn law_vowel_endings_share_a_stem(
    w1: Seq<char>,
    w2: Seq<char>,
    base: Seq<char>,
    v1: char,
    v2: char,
)
    requires
        lowercase(w1) == base.push(v1),
        lowercase(w2) == base.push(v2),
        v1 == 'а' || v1 == 'е' || v1 == 'ё' || v1 == 'и' || v1 == 'о' || v1 == 'у' || v1 == 'ы'
            || v1 == 'э' || v1 == 'ю' || v1 == 'я',
        v2 == 'а' || v2 == 'е' || v2 == 'ё' || v2 == 'и' || v2 == 'о' || v2 == 'у' || v2 == 'ы'
            || v2 == 'э' || v2 == 'ю' || v2 == 'я',
    ensures
        stem(w1) == stem(w2),
{
    law_stem_drops_a_final_vowel(w1, base, v1);
    law_stem_drops_a_final_vowel(w2, base, v2);
}

proof fn lemma_filter_none(s: Seq<Seq<char>>, pred: spec_fn(Seq<char>) -> bool)
    requires
        forall|i: int| 0 <= i < s.len() ==> !pred(#[trigger] s[i]),
    ensures
        s.filter(pred) =~= Seq::<Seq<char>>::empty(),
    decreases s.len(),
{
    reveal(Seq::filter);
    if s.len() > 0 {
        lemma_filter_none(s.drop_last(), pred);
        assert(!pred(s[s.len() - 1]));
    }
}

/// A department whose every word has the stem of some title word adds
/// nothing: the merge is the title alone.
pub proof fn law_merge_drops_repeated_words(appointment: Seq<char>, office: Seq<char>)
    requires
        forall|i: int|
            0 <= i < words(office).len() ==> exists|j: int|
                0 <= j < words(appointment).len() && stem(#[trigger] words(office)[i]) == stem(
                    words(appointment)[j],
                ),
    ensures
        spec_merge(appointment, office) == join(words(appointment), " "@),
{
    let title = words(appointment);
    let stems = title.map_values(|w: Seq<char>| stem(w));
    let keep = |w: Seq<char>| !stems.contains(stem(w));
    let ow = words(office);
    assert forall|i: int| 0 <= i < ow.len() implies !keep(#[trigger] ow[i]) by {
        let j = choose|j: int| 0 <= j < title.len() && stem(ow[i]) == stem(title[j]);
        assert(stems[j] == stem(title[j]));
    }
    lemma_filter_none(ow, keep);
    assert(title + ow.filter(keep) =~= title);
}

/// A person's title (one of `ANIMATE_TITLES`, compared lowercased) is
/// animate: in every case it goes through the last-name rules.
pub proof fn law_person_titles_are_always_declined(word: Seq<char>, case: Case)
    requires
        exists|i: int| 0 <= i < ANIMATE_TITLES@.len() && ANIMATE_TITLES@[i]@ == lowercase(word),
    ensures
        spec_decline_head(word, case) == spec_inflect(
            NamePart::Last,
            spec_head_gender(word),
            word,
            case,
        ),
{
}

/// In the accusative a masculine head that is neither an adjective nor a
/// person's title (an inanimate noun such as "Сектор") keeps its form.
pub proof fn law_inanimate_masculine_accusative_is_unchanged(word: Seq<char>)
    requires
        spec_head_gender(word) == Gender::Male,
        !ends_with(lowercase(word), seq!['и', 'й']),
        !ends_with(lowercase(word), seq!['ы', 'й']),
        !ends_with(lowercase(word), seq!['о', 'й']),
        forall|i: int| 0 <= i < ANIMATE_TITLES@.len() ==> ANIMATE_TITLES@[i]@ != lowercase(word),
    ensures
        spec_decline_head(word, Case::Accusative) == word,
{
    reveal_strlit("ий");
    reveal_strlit("ый");
    reveal_strlit("ой");
    assert("ий"@ =~= seq!['и', 'й']);
    assert("ый"@ =~= seq!['ы', 'й']);
    assert("ой"@ =~= seq!['о', 'й']);
}

} // verus!
