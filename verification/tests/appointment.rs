use petrovich_core::appointment::{
    decline_appointment, decline_full_appointment, decline_office, merge_appointment,
};
use petrovich_core::inflect::Case;

#[test]
fn appointment_first_word_only() {
    assert_eq!(
        decline_appointment("заведующий сектором", Some(Case::Genitive)),
        "заведующего сектором"
    );
    assert_eq!(
        decline_appointment("заведующий сектором", Some(Case::Dative)),
        "заведующему сектором"
    );
    assert_eq!(
        decline_appointment("заведующий сектором", Some(Case::Accusative)),
        "заведующего сектором"
    );
    assert_eq!(
        decline_appointment("заведующий сектором", Some(Case::Instrumental)),
        "заведующим сектором"
    );
    assert_eq!(
        decline_appointment("заведующий сектором", Some(Case::Prepositional)),
        "заведующем сектором"
    );
    assert_eq!(
        decline_appointment("заведующий сектором", None),
        "заведующий сектором"
    );
    assert_eq!(decline_office("Сектор", Some(Case::Genitive)), "Сектора");
    assert_eq!(decline_office("Сектор", Some(Case::Accusative)), "Сектор");
    assert_eq!(
        decline_office("Сектор", Some(Case::Instrumental)),
        "Сектором"
    );
    assert_eq!(decline_appointment("", Some(Case::Dative)), "");
}

#[test]
fn appointment_appointment_feminine_and_animate() {
    assert_eq!(
        decline_appointment("начальница цеха", Some(Case::Genitive)),
        "начальницы цеха"
    );
    assert_eq!(
        decline_appointment("медсестра", Some(Case::Dative)),
        "медсестре"
    );
    assert_eq!(
        decline_appointment("директор завода", Some(Case::Accusative)),
        "директора завода"
    );
    assert_eq!(
        decline_appointment("инженер", Some(Case::Accusative)),
        "инженера"
    );
    assert_eq!(
        decline_appointment("Сектор разработки", Some(Case::Accusative)),
        "Сектор разработки"
    );
    assert_eq!(decline_appointment("судья", Some(Case::Genitive)), "судьи");
}

#[test]
fn appointment_compound_appointment_dash_separator() {
    assert_eq!(
        decline_appointment("инженер - конструктор", Some(Case::Genitive)),
        "инженера - конструктора"
    );
}

#[test]
fn appointment_full_appointment_merges_without_dupes() {
    assert_eq!(
        merge_appointment("Начальник цеха", "Цех нестандартного оборудования"),
        "Начальник цеха нестандартного оборудования"
    );
    assert_eq!(
        decline_full_appointment("директор", "дирекция", Some(Case::Genitive)),
        "директора дирекция"
    );
}

#[test]
fn nominative_and_first_word_laws() {
    assert_eq!(
        decline_appointment("  директор   завода ", None),
        "  директор   завода "
    );
    assert_eq!(
        decline_appointment("инженер отдела кадров", Some(Case::Genitive)),
        "инженера отдела кадров"
    );
    assert_eq!(merge_appointment("  директор  завода", ""), "директор завода");
}
