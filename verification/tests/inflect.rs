use petrovich_core::gender::Gender;
use petrovich_core::inflect::{inflect, inflect_opt, Case, NamePart};

#[test]
fn readme_declension_examples() {
    assert_eq!(inflect(NamePart::Last, Gender::Male, "Иванов", Case::Dative), "Иванову");
    assert_eq!(inflect(NamePart::First, Gender::Male, "Иван", Case::Dative), "Ивану");
    assert_eq!(
        inflect(NamePart::Middle, Gender::Male, "Иванович", Case::Dative),
        "Ивановичу"
    );
    assert_eq!(inflect(NamePart::First, Gender::Male, "Саша", Case::Dative), "Саше");
    assert_eq!(
        inflect(NamePart::First, Gender::Female, "Изабель", Case::Genitive),
        "Изабель"
    );
    assert_eq!(
        inflect(NamePart::Last, Gender::Male, "Станкевич", Case::Prepositional),
        "Станкевиче"
    );
    assert_eq!(
        inflect(NamePart::Last, Gender::Female, "Станкевич", Case::Prepositional),
        "Станкевич"
    );
    assert_eq!(
        inflect(NamePart::Middle, Gender::Male, "Сергеич", Case::Instrumental),
        "Сергеичем"
    );
    assert_eq!(
        inflect(NamePart::Middle, Gender::Female, "Прокопьевна", Case::Accusative),
        "Прокопьевну"
    );
}

#[test]
fn hyphenated_names_inflect_by_parts() {
    assert_eq!(
        inflect(NamePart::Last, Gender::Male, "Иванов-Сидоров", Case::Dative),
        "Иванову-Сидорову"
    );
}

#[test]
fn nominative_keeps_the_name() {
    assert_eq!(inflect_opt(NamePart::First, Gender::Male, "Иван", None), "Иван");
    assert_eq!(
        inflect_opt(NamePart::First, Gender::Male, "Иван", Some(Case::Genitive)),
        "Ивана"
    );
}

#[test]
fn fixed_first_parts_of_double_names_stay() {
    assert_eq!(inflect(NamePart::Last, Gender::Male, "Тер", Case::Dative), "Тер");
    assert_eq!(inflect(NamePart::Last, Gender::Male, "фон", Case::Genitive), "фон");
    assert_eq!(
        inflect(NamePart::Last, Gender::Male, "Фон-Иванов", Case::Dative),
        "Фон-Иванову"
    );
    assert_eq!(
        inflect(NamePart::Last, Gender::Male, "Иванов-Тер", Case::Dative),
        "Иванову-Тер"
    );
    assert_eq!(
        inflect(NamePart::Middle, Gender::Male, "Борух", Case::Dative),
        "Борух"
    );
}
