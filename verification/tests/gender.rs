use petrovich_core::gender::{detect_gender, Gender, GenderHeuristic};
use petrovich_core::gender_rules::{
    FIRSTNAME_EXCEPTIONS, FIRSTNAME_SUFFIXES, LASTNAME_EXCEPTIONS, LASTNAME_SUFFIXES,
};

#[test]
fn readme_gender_examples() {
    assert_eq!(detect_gender(None, Some("Александр"), None), Gender::Male);
    assert_eq!(detect_gender(None, Some("Александра"), None), Gender::Female);
    assert_eq!(detect_gender(None, Some("Саша"), None), Gender::Androgynous);
    assert_eq!(detect_gender(Some("Иванов"), Some("Саша"), None), Gender::Male);
    assert_eq!(
        detect_gender(Some("Склифасовская"), Some("Александра"), None),
        Gender::Female
    );
}

#[test]
fn empty_parts_count_as_absent() {
    assert_eq!(
        detect_gender(Some(""), Some("Александра"), Some("")),
        detect_gender(None, Some("Александра"), None)
    );
    assert_eq!(detect_gender(Some(""), Some(""), Some("")), Gender::Androgynous);
    assert_eq!(detect_gender(None, None, None), Gender::Androgynous);
}

#[test]
fn decided_middle_name_wins() {
    assert_eq!(
        detect_gender(Some("Петрова"), Some("Анна"), Some("Иванович")),
        Gender::Male
    );
    assert_eq!(
        detect_gender(Some("Иванов"), Some("Иван"), Some("Сергеевна")),
        Gender::Female
    );
}

#[test]
fn single_parts_and_conflicts() {
    assert_eq!(detect_gender(Some("Иванов"), None, None), Gender::Male);
    assert_eq!(detect_gender(None, None, Some("Иванович")), Gender::Male);
    assert_eq!(detect_gender(Some("Склифасовская"), Some("Саша"), None), Gender::Female);
    assert_eq!(detect_gender(Some("Иванов"), Some("Анна"), None), Gender::Androgynous);
}

#[test]
fn last_hyphen_part_decides() {
    assert_eq!(detect_gender(Some("Петрова-Иванов"), None, None), Gender::Male);
    assert_eq!(detect_gender(Some("Иванов-Петрова"), None, None), Gender::Female);
}

#[test]
fn case_of_the_name_does_not_matter() {
    assert_eq!(detect_gender(None, Some("АЛЕКСАНДРА"), None), Gender::Female);
    assert_eq!(detect_gender(Some("ИВАНОВ"), None, None), Gender::Male);
}

#[test]
fn heuristic_votes() {
    let first = GenderHeuristic {
        exceptions: &FIRSTNAME_EXCEPTIONS,
        suffixes: &FIRSTNAME_SUFFIXES,
    };
    assert_eq!(first.match_part("саша"), Some(Gender::Androgynous));
    assert_eq!(first.detect_gender("александр"), Gender::Male);
    let last = GenderHeuristic {
        exceptions: &LASTNAME_EXCEPTIONS,
        suffixes: &LASTNAME_SUFFIXES,
    };
    assert_eq!(last.match_part("иванов"), Some(Gender::Male));
    assert_eq!(last.detect_gender("петрова-иванов"), Gender::Male);
}

#[test]
fn newer_gender_rules() {
    assert_eq!(detect_gender(None, Some("Арсен"), None), Gender::Male);
    assert_eq!(detect_gender(None, Some("Артём"), None), Gender::Male);
    assert_eq!(detect_gender(None, Some("Карен"), None), Gender::Male);
    assert_eq!(detect_gender(None, Some("Рауль"), None), Gender::Male);
    assert_eq!(detect_gender(None, Some("Шамиль"), None), Gender::Male);
    assert_eq!(detect_gender(None, None, Some("Ахмед угли")), Gender::Male);
    assert_eq!(detect_gender(None, None, Some("Ахмед кизи")), Gender::Female);
}
