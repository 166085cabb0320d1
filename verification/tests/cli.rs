use petrovich_core::cli::{
    appoint_batch_line, appoint_line, batch_line, decline_line, gender_line, CaseArg, GenderArg,
    NameArgs,
};
use petrovich_core::gender::Gender;
use petrovich_core::inflect::Case;

fn name(lastname: Option<&str>, firstname: Option<&str>, middlename: Option<&str>) -> NameArgs {
    NameArgs {
        lastname: lastname.map(str::to_owned),
        firstname: firstname.map(str::to_owned),
        middlename: middlename.map(str::to_owned),
    }
}

const MISSING: &str = "at least one of --lastname/--firstname/--middlename is required";

#[test]
fn readme_decline_examples() {
    let full = name(Some("Иванов"), Some("Иван"), Some("Иванович"));
    assert_eq!(
        decline_line(&full, Gender::Male, Some(Case::Dative)).unwrap(),
        "Иванову Ивану Ивановичу"
    );
    let first = name(None, Some("Александра"), None);
    let g = GenderArg::Auto.resolve(&first);
    assert_eq!(g, Gender::Female);
    assert_eq!(
        decline_line(&first, g, CaseArg::Genitive.case()).unwrap(),
        "Александры"
    );
    let last = name(Some("Станкевич"), None, None);
    assert_eq!(
        decline_line(&last, GenderArg::Female.resolve(&last), Some(Case::Prepositional)).unwrap(),
        "Станкевич"
    );
}

#[test]
fn nominative_keeps_the_given_parts() {
    let n = name(Some("Иванов"), Some(""), Some("Иванович"));
    assert_eq!(
        decline_line(&n, Gender::Male, CaseArg::Nominative.case()).unwrap(),
        "Иванов Иванович"
    );
}

#[test]
fn missing_name_is_an_error() {
    let blank = name(Some(""), None, Some(""));
    assert_eq!(decline_line(&blank, Gender::Male, None).unwrap_err(), MISSING);
    assert_eq!(gender_line(&blank).unwrap_err(), MISSING);
}

#[test]
fn gender_command() {
    assert_eq!(gender_line(&name(None, Some("Саша"), None)).unwrap(), "androgynous");
    assert_eq!(
        gender_line(&name(Some("Иванов"), Some("Саша"), None)).unwrap(),
        "male"
    );
    assert_eq!(
        gender_line(&name(None, Some("Александра"), None)).unwrap(),
        "female"
    );
}

#[test]
fn option_values() {
    assert_eq!(CaseArg::Nominative.case(), None);
    assert_eq!(CaseArg::Genitive.case(), Some(Case::Genitive));
    assert_eq!(CaseArg::Dative.case(), Some(Case::Dative));
    assert_eq!(CaseArg::Accusative.case(), Some(Case::Accusative));
    assert_eq!(CaseArg::Instrumental.case(), Some(Case::Instrumental));
    assert_eq!(CaseArg::Prepositional.case(), Some(Case::Prepositional));
    let n = name(Some("Иванов"), Some("Саша"), None);
    assert_eq!(GenderArg::Auto.resolve(&n), Gender::Male);
    assert_eq!(GenderArg::Female.resolve(&n), Gender::Female);
    assert_eq!(GenderArg::Androgynous.resolve(&n), Gender::Androgynous);
}

#[test]
fn batch_lines() {
    assert_eq!(
        batch_line(1, "Иванов\tИван\tИванович", GenderArg::Auto, Some(Case::Dative)).unwrap(),
        Some("Иванову Ивану Ивановичу".to_owned())
    );
    assert_eq!(
        batch_line(2, "Склифасовская\tАлександра\t", GenderArg::Auto, Some(Case::Dative))
            .unwrap(),
        Some("Склифасовской Александре".to_owned())
    );
    assert_eq!(batch_line(3, "   ", GenderArg::Auto, Some(Case::Dative)).unwrap(), None);
    assert_eq!(
        batch_line(12, "\t\t\tx", GenderArg::Auto, Some(Case::Dative)).unwrap_err(),
        format!("line 12: {MISSING}")
    );
}

#[test]
fn appoint_examples() {
    assert_eq!(
        appoint_line("генеральный директор", None, Some(Case::Dative)),
        "генеральному директор"
    );
    assert_eq!(
        appoint_line("заведующий сектором", None, Some(Case::Instrumental)),
        "заведующим сектором"
    );
    assert_eq!(
        appoint_line(
            "Начальник цеха",
            Some("Цех нестандартного оборудования"),
            Some(Case::Genitive)
        ),
        "Начальника цеха нестандартного оборудования"
    );
    assert_eq!(
        appoint_line("Сектор разработки", Some(""), Some(Case::Accusative)),
        "Сектор разработки"
    );
}

#[test]
fn appoint_batch_lines() {
    assert_eq!(
        appoint_batch_line(1, "генеральный директор\t", Some(Case::Dative)).unwrap(),
        Some("генеральному директор".to_owned())
    );
    assert_eq!(
        appoint_batch_line(
            2,
            "Начальник цеха\tЦех нестандартного оборудования",
            Some(Case::Dative)
        )
        .unwrap(),
        Some("Начальнику цеха нестандартного оборудования".to_owned())
    );
    assert_eq!(appoint_batch_line(3, "", Some(Case::Dative)).unwrap(), None);
    assert_eq!(
        appoint_batch_line(4, "\tЦех", Some(Case::Dative)).unwrap_err(),
        "line 4: appointment is required"
    );
}
