use petrovich_core::com::{
    clsid_declension, dispid_of_name, plan_write, register_inproc_server, select_method,
    sex_of_bool, unregister_inproc_server, utf16_length, InvokeRefusal, Method,
    CLSID_DECLENSION_STR, DISPID_GETFIOPADEGFS,
};
use petrovich_core::com::{
    alias_read, arg_int, arg_text, check_invoke, settled, AliasRead, ArgInt, ArgText,
    DISPATCH_METHOD, DISP_E_BADPARAMCOUNT, DISP_E_MEMBERNOTFOUND, DISPID_GETSEX, E_POINTER,
    VT_BOOL, VT_BSTR, VT_BYREF, VT_EMPTY, VT_I2, VT_I4, VT_NULL, VT_R8, VT_UI4, VT_VARIANT,
};
use petrovich_core::com::{
    invoke, out_target, param_kinds, ArgKind, ArgValue, DispatchError, InvokeValue, OutTarget,
    DISP_E_EXCEPTION, DISP_E_TYPEMISMATCH,
};
use petrovich_core::text::parse_i32;

#[test]
fn clsid_string_is_well_formed() {
    assert_eq!(CLSID_DECLENSION_STR.len(), 38);
    assert!(CLSID_DECLENSION_STR.starts_with('{'));
    assert!(CLSID_DECLENSION_STR.ends_with('}'));
}

#[test]
fn clsid_matches_its_string() {
    let g = clsid_declension();
    let text = format!(
        "{{{:08X}-{:04X}-{:04X}-{:02X}{:02X}-{:02X}{:02X}{:02X}{:02X}{:02X}{:02X}}}",
        g.Data1, g.Data2, g.Data3, g.Data4[0], g.Data4[1], g.Data4[2], g.Data4[3], g.Data4[4],
        g.Data4[5], g.Data4[6], g.Data4[7]
    );
    assert_eq!(text, CLSID_DECLENSION_STR);
}

#[test]
fn dispatch_names_are_case_insensitive() {
    assert_eq!(dispid_of_name("getfiopadegfs"), Some(DISPID_GETFIOPADEGFS));
    assert_eq!(dispid_of_name("GetSex"), Some(1));
    assert_eq!(dispid_of_name("GETNOMINATIVEPADEG"), Some(3));
    assert_eq!(dispid_of_name("getAppointmentPadeg"), Some(4));
    assert_eq!(dispid_of_name("NoSuchMethod"), None);
    let names = [
        "GetSex",
        "GetFIOPadegFS",
        "GetNominativePadeg",
        "GetAppointmentPadeg",
        "GetOfficePadeg",
        "GetFullAppointmentPadeg",
        "GetFIOPadeg",
        "GetIFPadeg",
        "GetIFPadegFS",
        "SeparateFIO",
        "SetDictionary",
        "Update_Exceptions",
        "GetExceptionsFileName",
    ];
    for (i, name) in names.iter().enumerate() {
        assert_eq!(dispid_of_name(name), Some(i as i32 + 1));
        assert_eq!(dispid_of_name(&name.to_lowercase()), Some(i as i32 + 1));
    }
}

#[test]
fn method_selection() {
    assert_eq!(select_method(1, 1), Ok(Method::GetSex));
    assert_eq!(select_method(2, 3), Ok(Method::GetFioPadegFs));
    assert_eq!(select_method(2, 1), Err(InvokeRefusal::BadParamCount));
    assert_eq!(select_method(4, 2), Ok(Method::GetAppointmentPadeg));
    assert_eq!(select_method(9, 0), Err(InvokeRefusal::BadParamCount));
    assert_eq!(select_method(7, 5), Ok(Method::GetFioPadeg));
    assert_eq!(select_method(10, 4), Ok(Method::SeparateFio));
    assert_eq!(select_method(12, 0), Ok(Method::UpdateExceptions));
    assert_eq!(select_method(13, 0), Ok(Method::GetExceptionsFileName));
    assert_eq!(select_method(14, 0), Err(InvokeRefusal::MemberNotFound));
    assert_eq!(select_method(0, 0), Err(InvokeRefusal::MemberNotFound));
}

#[test]
fn registry_entries_are_per_user() {
    let entries = register_inproc_server("C:\\x\\petrovich_com.dll");
    assert_eq!(entries.len(), 10);
    assert_eq!(
        entries[0].key,
        "Software\\Classes\\CLSID\\{E4B2C1A0-5D6F-4A7B-8C9D-0E1F2A3B4C5D}"
    );
    assert_eq!(entries[1].data, "C:\\x\\petrovich_com.dll");
    assert_eq!(entries[2].name.as_deref(), Some("ThreadingModel"));
    assert_eq!(entries[2].data, "Apartment");
    assert_eq!(entries[3].data, "PadegUCA.Declension");
    assert_eq!(entries[4].key, "Software\\Classes\\PadegUCA.Declension");
    assert_eq!(entries[5].key, "Software\\Classes\\PadegUCA.Declension\\CLSID");
    assert_eq!(entries[5].data, "{E4B2C1A0-5D6F-4A7B-8C9D-0E1F2A3B4C5D}");
    assert_eq!(entries[7].key, "Software\\Classes\\Padeg.Declension\\CLSID");
    assert_eq!(entries[9].key, "Software\\Classes\\Petrovich.Declension\\CLSID");
    for e in &entries {
        assert!(e.key.starts_with("Software\\Classes\\"));
    }
    let keys = unregister_inproc_server();
    assert_eq!(
        keys,
        vec![
            "Software\\Classes\\CLSID\\{E4B2C1A0-5D6F-4A7B-8C9D-0E1F2A3B4C5D}".to_owned(),
            "Software\\Classes\\PadegUCA.Declension".to_owned(),
            "Software\\Classes\\Padeg.Declension".to_owned(),
            "Software\\Classes\\Petrovich.Declension".to_owned()
        ]
    );
}

#[test]
fn buffer_protocol_plan() {
    let len = utf16_length("Иванову Ивану Ивановичу");
    assert_eq!(len, 23);
    assert_eq!(utf16_length("a😀"), 3);
    assert_eq!(plan_write(100, len), Some((23, 0)));
    assert_eq!(plan_write(5, len), Some((4, -3)));
    assert_eq!(plan_write(24, 23), Some((23, 0)));
    assert_eq!(plan_write(0, 3), None);
    assert_eq!(sex_of_bool(1), "м");
    assert_eq!(sex_of_bool(0x100), "ж");
    assert_eq!(sex_of_bool(0), "ж");
}

#[test]
fn invoke_checks() {
    assert_eq!(DISP_E_MEMBERNOTFOUND, 0x80020003u32 as i32);
    assert_eq!(DISP_E_BADPARAMCOUNT, 0x8002000Eu32 as i32);
    assert_eq!(E_POINTER, 0x80004003u32 as i32);
    assert_eq!(
        check_invoke(DISPATCH_METHOD, Some((0, 3)), DISPID_GETFIOPADEGFS),
        Ok(Method::GetFioPadegFs)
    );
    assert_eq!(check_invoke(2, Some((0, 1)), DISPID_GETSEX), Err(DISP_E_MEMBERNOTFOUND));
    assert_eq!(check_invoke(DISPATCH_METHOD, None, DISPID_GETSEX), Err(E_POINTER));
    assert_eq!(
        check_invoke(DISPATCH_METHOD, Some((1, 1)), DISPID_GETSEX),
        Err(DISP_E_MEMBERNOTFOUND)
    );
    assert_eq!(
        check_invoke(DISPATCH_METHOD, Some((0, 2)), DISPID_GETSEX),
        Err(DISP_E_BADPARAMCOUNT)
    );
    assert_eq!(check_invoke(DISPATCH_METHOD, Some((0, 1)), 99), Err(DISP_E_MEMBERNOTFOUND));
}

#[test]
fn variant_arguments() {
    assert_eq!(alias_read(VT_BSTR, 8), AliasRead::Stop);
    assert_eq!(alias_read(VT_VARIANT | VT_BYREF, 8), AliasRead::Variant);
    assert_eq!(alias_read(VT_VARIANT | VT_BYREF, 0), AliasRead::Stop);
    assert_eq!(alias_read(VT_BSTR | VT_BYREF, 8), AliasRead::Bstr);
    assert_eq!(alias_read(VT_BOOL | VT_BYREF, 8), AliasRead::Bits16(VT_BOOL));
    assert_eq!(alias_read(VT_UI4 | VT_BYREF, 8), AliasRead::Bits32(VT_UI4));
    assert_eq!(alias_read(VT_R8 | VT_BYREF, 8), AliasRead::Bits64(VT_R8));
    assert_eq!(settled(VT_I4 | VT_BYREF, 0, 5), (VT_EMPTY, 0, 0));
    assert_eq!(settled(VT_I4, 0, 5), (VT_I4, 0, 5));

    let text = |vt: u16, d1: usize| match arg_text(vt, d1) {
        ArgText::Text(s) => s,
        ArgText::ReadBstr => "<bstr>".to_owned(),
        ArgText::FormatDouble => "<double>".to_owned(),
        ArgText::Mismatch => "<mismatch>".to_owned(),
    };
    assert_eq!(text(VT_EMPTY, 0), "");
    assert_eq!(text(VT_NULL, 0), "");
    assert_eq!(text(VT_I2, 0xFFFF), "-1");
    assert_eq!(text(VT_I4, 0xFFFF_FFFE), "-2");
    assert_eq!(text(VT_UI4, 0xFFFF_FFFE), "4294967294");
    assert_eq!(text(VT_BOOL, 0xFFFF), "True");
    assert_eq!(text(VT_BOOL, 0), "False");
    assert_eq!(text(VT_BSTR, 0), "<bstr>");
    assert_eq!(text(VT_R8, 0), "<double>");
    assert_eq!(text(99, 0), "<mismatch>");

    assert_eq!(arg_int(VT_I2, 0xFFFF), ArgInt::Int(-1));
    assert_eq!(arg_int(VT_I4, 3), ArgInt::Int(3));
    assert_eq!(arg_int(VT_UI4, 0xFFFF_FFFF), ArgInt::Int(-1));
    assert_eq!(arg_int(VT_BOOL, 0xFFFF), ArgInt::Int(1));
    assert_eq!(arg_int(VT_BSTR, 0), ArgInt::ParseBstr);
    assert_eq!(arg_int(VT_R8, 0), ArgInt::TruncateDouble);
    assert_eq!(arg_int(VT_EMPTY, 0), ArgInt::Mismatch);
}

#[test]
fn integers_are_read_as_from_str_reads_them() {
    assert_eq!(parse_i32("3"), Some(3));
    assert_eq!(parse_i32("+42"), Some(42));
    assert_eq!(parse_i32("-17"), Some(-17));
    assert_eq!(parse_i32("2147483647"), Some(i32::MAX));
    assert_eq!(parse_i32("-2147483648"), Some(i32::MIN));
    assert_eq!(parse_i32("2147483648"), None);
    assert_eq!(parse_i32("99999999999999999999"), None);
    assert_eq!(parse_i32(""), None);
    assert_eq!(parse_i32("-"), None);
    assert_eq!(parse_i32("3.0"), None);
    assert_eq!(parse_i32(" 3"), None);
    for s in ["0", "007", "-0", "12a", "+", "1_000"] {
        assert_eq!(parse_i32(s), s.parse::<i32>().ok());
    }
}

fn text_of(r: Result<InvokeValue, DispatchError>) -> String {
    match r {
        Ok(InvokeValue::Text(s)) => s,
        _ => panic!("not a text"),
    }
}

fn t(s: &str) -> ArgValue {
    ArgValue::Text(s.to_owned())
}

#[test]
fn invoking_methods() {
    let fio = "Иванов Иван Иванович";
    match invoke(Method::GetSex, &vec![t(fio)]) {
        Ok(InvokeValue::Int(n)) => assert_eq!(n, 1),
        _ => panic!("GetSex"),
    }
    assert_eq!(
        text_of(invoke(Method::GetFioPadegFs, &vec![t(fio), t(""), ArgValue::Int(3)])),
        "Иванову Ивану Ивановичу"
    );
    assert_eq!(
        text_of(invoke(Method::GetNominativePadeg, &vec![t(" Иванов ")])),
        " Иванов "
    );
    assert_eq!(
        text_of(invoke(Method::GetOfficePadeg, &vec![t("Сектор"), ArgValue::Int(2)])),
        "Сектора"
    );
    assert_eq!(
        text_of(invoke(
            Method::GetFioPadeg,
            &vec![t("Иванов"), t("Иван"), t("Иванович"), t("auto"), ArgValue::Int(3)]
        )),
        "Иванову Ивану Ивановичу"
    );
    assert_eq!(
        text_of(invoke(Method::GetIfPadeg, &vec![t("Иван"), t("Иванов"), t("м"), ArgValue::Int(3)])),
        "Ивану Иванову"
    );
    match invoke(
        Method::SeparateFio,
        &vec![t(fio), ArgValue::Out, ArgValue::Out, ArgValue::Out],
    ) {
        Ok(InvokeValue::Parts(a, b, c)) => {
            assert_eq!((a.as_str(), b.as_str(), c.as_str()), ("Иванов", "Иван", "Иванович"))
        }
        _ => panic!("SeparateFIO"),
    }
    match invoke(Method::SetDictionary, &vec![t("x.dic")]) {
        Ok(InvokeValue::Flag(b)) => assert!(!b),
        _ => panic!("SetDictionary"),
    }
    match invoke(Method::UpdateExceptions, &vec![]) {
        Ok(InvokeValue::Flag(b)) => assert!(b),
        _ => panic!("Update_Exceptions"),
    }
    assert_eq!(text_of(invoke(Method::GetExceptionsFileName, &vec![])), "");
}

#[test]
fn invoke_errors_carry_the_padeg_code() {
    match invoke(Method::GetFioPadegFs, &vec![t("Иванов"), t(""), ArgValue::Int(9)]) {
        Err(e) => {
            assert_eq!(e.hresult, DISP_E_EXCEPTION);
            assert_eq!(e.scode, -1);
            assert_eq!(e.message, "nPadeg должен быть 1..6, получен 9");
        }
        _ => panic!("bad case accepted"),
    }
    match invoke(Method::GetFioPadegFs, &vec![t("Иванов"), t("x"), ArgValue::Int(3)]) {
        Err(e) => {
            assert_eq!(e.hresult, DISP_E_EXCEPTION);
            assert_eq!(e.scode, -2);
        }
        _ => panic!("bad sex accepted"),
    }
    match invoke(Method::GetSex, &vec![ArgValue::Int(3)]) {
        Err(e) => assert_eq!(e.hresult, DISP_E_TYPEMISMATCH),
        _ => panic!("wrong kind accepted"),
    }
    match invoke(Method::GetSex, &vec![]) {
        Err(e) => assert_eq!(e.hresult, DISP_E_TYPEMISMATCH),
        _ => panic!("wrong count accepted"),
    }
}

#[test]
fn outputs_of_separate_fio() {
    assert_eq!(out_target(VT_VARIANT | VT_BYREF, 8), OutTarget::Variant);
    assert_eq!(out_target(VT_BSTR | VT_BYREF, 8), OutTarget::Bstr);
    assert_eq!(out_target(VT_BSTR | VT_BYREF, 0), OutTarget::Mismatch);
    assert_eq!(out_target(VT_BSTR, 8), OutTarget::Mismatch);
    assert_eq!(
        param_kinds(Method::SeparateFio),
        vec![ArgKind::Text, ArgKind::Out, ArgKind::Out, ArgKind::Out]
    );
}
