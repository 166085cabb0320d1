use petrovich_core::adapter::{
    case_of, get_appointment_padeg, get_exceptions_file_name, get_fio_padeg, get_fio_padeg_fs,
    get_fio_parts, get_full_appointment_padeg, get_if_padeg, get_if_padeg_fs,
    get_nominative_padeg, get_office_padeg, get_padeg_id, get_sex, set_dictionary, sex_of,
    split_fio, update_exceptions, PadegError, CODE_BAD_PADEG, CODE_BAD_SEX,
};
use petrovich_core::gender::Gender;
use petrovich_core::inflect::Case;

#[test]
fn padeg_numbers_map_to_cases() {
    assert_eq!(case_of(1).unwrap(), None);
    assert_eq!(case_of(2).unwrap(), Some(Case::Genitive));
    assert_eq!(case_of(3).unwrap(), Some(Case::Dative));
    assert_eq!(case_of(4).unwrap(), Some(Case::Accusative));
    assert_eq!(case_of(5).unwrap(), Some(Case::Instrumental));
    assert_eq!(case_of(6).unwrap(), Some(Case::Prepositional));
    assert!(case_of(0).is_err());
    assert!(case_of(7).is_err());
    assert!(case_of(-1).is_err());
}

#[test]
fn sex_parsing_rules() {
    assert_eq!(sex_of("").unwrap(), None);
    assert_eq!(sex_of("  ").unwrap(), None);
    assert_eq!(sex_of("auto").unwrap(), None);
    assert_eq!(sex_of("м").unwrap(), Some(Gender::Male));
    assert_eq!(sex_of("М").unwrap(), Some(Gender::Male));
    assert_eq!(sex_of("муж").unwrap(), Some(Gender::Male));
    assert_eq!(sex_of("male").unwrap(), Some(Gender::Male));
    assert_eq!(sex_of("ж").unwrap(), Some(Gender::Female));
    assert_eq!(sex_of("Ж").unwrap(), Some(Gender::Female));
    assert_eq!(sex_of("female").unwrap(), Some(Gender::Female));
    assert!(sex_of("x").is_err());
    assert!(sex_of("1").is_err());
}

#[test]
fn directum_scenario_male() {
    let fio = "Иванов Иван Иванович";
    assert_eq!(get_fio_padeg_fs(fio, "", 1).unwrap(), fio);
    assert_eq!(
        get_fio_padeg_fs(fio, "", 3).unwrap(),
        "Иванову Ивану Ивановичу"
    );
    assert_eq!(
        get_fio_padeg_fs(fio, "м", 4).unwrap(),
        "Иванова Ивана Ивановича"
    );
    assert_eq!(
        get_fio_padeg_fs(fio, "", 5).unwrap(),
        "Ивановым Иваном Ивановичем"
    );
}

#[test]
fn female_declension() {
    let fio = "Петрова Анна Сергеевна";
    assert_eq!(
        get_fio_padeg_fs(fio, "ж", 3).unwrap(),
        "Петровой Анне Сергеевне"
    );
    assert_eq!(
        get_fio_padeg_fs(fio, "", 2).unwrap(),
        "Петровой Анны Сергеевны"
    );
}

#[test]
fn get_sex_values() {
    assert_eq!(get_sex("Иванов Иван Иванович"), 1);
    assert_eq!(get_sex("Иванович"), 1);
    assert_eq!(get_sex("Петрова Анна Сергеевна"), 0);
    assert_eq!(get_sex("Саша"), -1);
    assert_eq!(get_sex(""), -1);
    assert_eq!(get_sex("   "), -1);
}

#[test]
fn empty_and_partial_fio() {
    assert_eq!(get_fio_padeg_fs("", "", 3).unwrap(), "");
    assert_eq!(get_fio_padeg_fs("   ", "м", 2).unwrap(), "");
    assert_eq!(get_fio_padeg_fs("Иванов", "м", 3).unwrap(), "Иванову");
    assert_eq!(
        get_fio_padeg_fs("Иванов Иван", "", 3).unwrap(),
        "Иванову Ивану"
    );
    assert_eq!(
        get_fio_padeg_fs("Иванов Иван Иванович лишний", "", 3).unwrap(),
        "Иванову Ивану Ивановичу"
    );
    assert_eq!(
        get_fio_padeg_fs("  Иванов   Иван  ", "", 1).unwrap(),
        "Иванов Иван"
    );
}

#[test]
fn errors_propagate() {
    assert!(get_fio_padeg_fs("Иванов Иван", "", 0).is_err());
    assert!(get_fio_padeg_fs("Иванов Иван", "", 7).is_err());
    assert!(get_fio_padeg_fs("Иванов Иван", "x", 3).is_err());
    assert!(get_appointment_padeg("директор", 9).is_err());
}

#[test]
fn nominative_is_identity() {
    assert_eq!(
        get_nominative_padeg("Иванова Ивана Ивановича"),
        "Иванова Ивана Ивановича"
    );
}

#[test]
fn appointment_first_word_only_article_golden() {
    let dolg = "заведующий сектором";
    assert_eq!(get_appointment_padeg(dolg, 1).unwrap(), dolg);
    assert_eq!(
        get_appointment_padeg(dolg, 2).unwrap(),
        "заведующего сектором"
    );
    assert_eq!(
        get_appointment_padeg(dolg, 3).unwrap(),
        "заведующему сектором"
    );
    assert_eq!(
        get_appointment_padeg(dolg, 4).unwrap(),
        "заведующего сектором"
    );
    assert_eq!(
        get_appointment_padeg(dolg, 5).unwrap(),
        "заведующим сектором"
    );
    assert_eq!(
        get_appointment_padeg(dolg, 6).unwrap(),
        "заведующем сектором"
    );
    assert_eq!(get_office_padeg("Сектор", 1).unwrap(), "Сектор");
    assert_eq!(get_office_padeg("Сектор", 2).unwrap(), "Сектора");
    assert_eq!(get_office_padeg("Сектор", 4).unwrap(), "Сектор");
    assert_eq!(get_office_padeg("Сектор", 5).unwrap(), "Сектором");
    assert_eq!(get_appointment_padeg("", 4).unwrap(), "");
    assert!(get_appointment_padeg("директор", 9).is_err());
}

#[test]
fn adapter_appointment_feminine_and_animate() {
    assert_eq!(
        get_appointment_padeg("начальница цеха", 2).unwrap(),
        "начальницы цеха"
    );
    assert_eq!(get_appointment_padeg("медсестра", 3).unwrap(), "медсестре");
    assert_eq!(
        get_appointment_padeg("директор завода", 4).unwrap(),
        "директора завода"
    );
    assert_eq!(get_appointment_padeg("инженер", 4).unwrap(), "инженера");
    assert_eq!(
        get_appointment_padeg("Сектор разработки", 4).unwrap(),
        "Сектор разработки"
    );
    assert_eq!(get_appointment_padeg("судья", 2).unwrap(), "судьи");
}

#[test]
fn adapter_compound_appointment_dash_separator() {
    assert_eq!(
        get_appointment_padeg("инженер - конструктор", 2).unwrap(),
        "инженера - конструктора"
    );
}

#[test]
fn adapter_full_appointment_merges_without_dupes() {
    assert_eq!(
        get_full_appointment_padeg("Начальник цеха", "Цех нестандартного оборудования", 1)
            .unwrap(),
        "Начальник цеха нестандартного оборудования"
    );
    assert_eq!(
        get_full_appointment_padeg("директор", "дирекция", 2).unwrap(),
        "директора дирекция"
    );
}

#[test]
fn if_order_variants() {
    assert_eq!(
        get_if_padeg("Иван", "Иванов", "м", 3).unwrap(),
        "Ивану Иванову"
    );
    assert_eq!(
        get_if_padeg_fs("Иван Иванов", "", 2).unwrap(),
        "Ивана Иванова"
    );
    assert_eq!(get_if_padeg("", "", "", 3).unwrap(), "");
    assert_eq!(
        get_fio_padeg("Иванов", "Иван", "Иванович", "auto", 3).unwrap(),
        "Иванову Ивану Ивановичу"
    );
}

#[test]
fn fio_parts_split() {
    assert_eq!(
        get_fio_parts("Иванов Иван Иванович"),
        (
            "Иванов".to_owned(),
            "Иван".to_owned(),
            "Иванович".to_owned()
        )
    );
    assert_eq!(
        get_fio_parts("  Петрова  Анна "),
        ("Петрова".to_owned(), "Анна".to_owned(), String::new())
    );
}

#[test]
fn dictionary_and_padegid_stubs() {
    assert!(update_exceptions());
    assert_eq!(get_exceptions_file_name(), "");
    assert!(!set_dictionary("C:\\dict.dic"));
    assert!(get_padeg_id("Иванову Ивану Ивановичу").is_err());
}

#[test]
fn error_codes_and_messages() {
    let e = case_of(9).unwrap_err();
    assert_eq!(e.code, CODE_BAD_PADEG);
    assert_eq!(e.message, "nPadeg должен быть 1..6, получен 9");
    assert_eq!(e.to_string(), "[-1] nPadeg должен быть 1..6, получен 9");
    let e = case_of(-12).unwrap_err();
    assert_eq!(e.message, "nPadeg должен быть 1..6, получен -12");
    let e = sex_of(" x ").unwrap_err();
    assert_eq!(e.code, CODE_BAD_SEX);
    assert_eq!(
        e.message,
        "cSex должен быть пустым/auto, начинаться с м/m или ж/f/w, получено \" x \""
    );
    assert_eq!(sex_of("  Авто ").unwrap(), None);
    assert_eq!(sex_of("Woman").unwrap(), Some(Gender::Female));
    let e: PadegError = get_fio_padeg_fs("Иванов", "x", 0).unwrap_err();
    assert_eq!(e.code, CODE_BAD_PADEG);
    let e = get_padeg_id("x").unwrap_err();
    assert_eq!(e.code, CODE_BAD_PADEG);
}

#[test]
fn positional_split_and_middle_names() {
    assert_eq!(split_fio("  А  Б В Г"), (Some("А"), Some("Б"), Some("В")));
    assert_eq!(split_fio(" А "), (Some("А"), None, None));
    assert_eq!(split_fio("\t\n"), (None, None, None));
    assert_eq!(
        get_if_padeg_fs("Джон Фиджеральд Кеннеди", "м", 1).unwrap(),
        "Джон Фиджеральд Кеннеди"
    );
    assert_eq!(
        get_fio_padeg("  Иванов ", "", " Иванович", "м", 3).unwrap(),
        "Иванову Ивановичу"
    );
    assert_eq!(get_nominative_padeg("  a \t b  "), "  a \t b  ");
}

#[test]
fn nominative_returns_the_input_and_case_one_keeps_three_words() {
    assert_eq!(get_nominative_padeg(" Иванов  Иван"), " Иванов  Иван");
    assert_eq!(get_nominative_padeg(""), "");
    assert_eq!(
        get_fio_padeg_fs("Иванов  Иван Иванович лишний", "ж", 1).unwrap(),
        "Иванов Иван Иванович"
    );
}
