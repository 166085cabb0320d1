//! The platform-independent part of the `Padeg.Declension` COM server and of
//! the flat C exports: identifiers, dispatch names, the registry entries of a
//! per-user registration and the caller-buffer protocol.

use vstd::prelude::*;

use crate::adapter::{
    case_failure, fio_padeg_fs_text, fio_padeg_text, get_appointment_padeg,
    get_exceptions_file_name, get_fio_padeg, get_fio_padeg_fs, get_fio_parts,
    get_full_appointment_padeg, get_if_padeg, get_if_padeg_fs, get_nominative_padeg,
    get_office_padeg, get_sex, if_padeg_fs_text, if_padeg_text, input_failure, padeg_case,
    set_dictionary, some_of, spec_get_sex, update_exceptions, word_or_empty, PadegError, CODE_OK,
    CODE_SMALL_BUFFER,
};
use crate::appointment::{decline_text, spec_merge};
use crate::text::{decimal, digits, int_to_string, push_digits, str_eq, to_upper, uppercase};

verus! {

/// A COM GUID, laid out as in the Windows SDK.
#[allow(non_snake_case)]
#[derive(Clone, Copy, PartialEq, Eq, Debug)]
pub struct GUID {
    pub Data1: u32,
    pub Data2: u16,
    pub Data3: u16,
    pub Data4: [u8; 8],
}

/// Registry form of the class identifier.
pub const CLSID_DECLENSION_STR: &'static str = "{E4B2C1A0-5D6F-4A7B-8C9D-0E1F2A3B4C5D}";

/// Primary ProgID of the class (padeg 4.1).
pub const PROGID_PADEG_UCA: &'static str = "PadegUCA.Declension";

/// ProgID of the padeg-compatible class (padeg 3).
pub const PROGID_PADEG: &'static str = "Padeg.Declension";

/// Second ProgID of the class.
pub const PROGID_PETROVICH: &'static str = "Petrovich.Declension";

/// Friendly name written to the registry.
pub const FRIENDLY_NAME: &'static str = "Petrovich Declension (padeg-compatible)";

/// Dispatch identifier of `GetSex`.
pub const DISPID_GETSEX: i32 = 1;

/// Dispatch identifier of `GetFIOPadegFS`.
pub const DISPID_GETFIOPADEGFS: i32 = 2;

/// Dispatch identifier of `GetNominativePadeg`.
pub const DISPID_GETNOMINATIVEPADEG: i32 = 3;

/// Dispatch identifier of `GetAppointmentPadeg`.
pub const DISPID_GETAPPOINTMENTPADEG: i32 = 4;

/// Dispatch identifier of `GetOfficePadeg`.
pub const DISPID_GETOFFICEPADEG: i32 = 5;

/// Dispatch identifier of `GetFullAppointmentPadeg`.
pub const DISPID_GETFULLAPPOINTMENTPADEG: i32 = 6;

/// Dispatch identifier of `GetFIOPadeg`.
pub const DISPID_GETFIOPADEG: i32 = 7;

/// Dispatch identifier of `GetIFPadeg`.
pub const DISPID_GETIFPADEG: i32 = 8;

/// Dispatch identifier of `GetIFPadegFS`.
pub const DISPID_GETIFPADEGFS: i32 = 9;

/// Dispatch identifier of `SeparateFIO`.
pub const DISPID_SEPARATEFIO: i32 = 10;

/// Dispatch identifier of `SetDictionary`.
pub const DISPID_SETDICTIONARY: i32 = 11;

/// Dispatch identifier of `Update_Exceptions`.
pub const DISPID_UPDATE_EXCEPTIONS: i32 = 12;

/// Dispatch identifier of `GetExceptionsFileName`.
pub const DISPID_GETEXCEPTIONSFILENAME: i32 = 13;

/// The class identifier of `Padeg.Declension`.
pub fn clsid_declension() -> (g: GUID)
    ensures
        g.Data1 == 0xE4B2C1A0u32,
        g.Data2 == 0x5D6Fu16,
        g.Data3 == 0x4A7Bu16,
        g.Data4@ == seq![0x8Cu8, 0x9Du8, 0x0Eu8, 0x1Fu8, 0x2Au8, 0x3Bu8, 0x4Cu8, 0x5Du8],
{
    let g = GUID {
        Data1: 0xE4B2C1A0,
        Data2: 0x5D6F,
        Data3: 0x4A7B,
        Data4: [0x8C, 0x9D, 0x0E, 0x1F, 0x2A, 0x3B, 0x4C, 0x5D],
    };
    assert(g.Data4@ =~= seq![0x8Cu8, 0x9Du8, 0x0Eu8, 0x1Fu8, 0x2Au8, 0x3Bu8, 0x4Cu8, 0x5Du8]);
    g
}

/// Binary image of a `VARIANT` (16 bytes on x64): tag, three reserved
/// words, and the two machine words of its payload.
#[allow(non_snake_case)]
#[derive(Clone, Copy)]
pub struct VARIANT {
    pub vt: u16,
    pub wReserved1: u16,
    pub wReserved2: u16,
    pub wReserved3: u16,
    pub data1: usize,
    pub data2: usize,
}

/// Dispatch identifier of a method name, compared without regard to case.
pub open spec fn dispid_for(upper: Seq<char>) -> Option<i32> {
    if upper == "GETSEX"@ {
        Some(DISPID_GETSEX)
    } else if upper == "GETFIOPADEGFS"@ {
        Some(DISPID_GETFIOPADEGFS)
    } else if upper == "GETNOMINATIVEPADEG"@ {
        Some(DISPID_GETNOMINATIVEPADEG)
    } else if upper == "GETAPPOINTMENTPADEG"@ {
        Some(DISPID_GETAPPOINTMENTPADEG)
    } else if upper == "GETOFFICEPADEG"@ {
        Some(DISPID_GETOFFICEPADEG)
    } else if upper == "GETFULLAPPOINTMENTPADEG"@ {
        Some(DISPID_GETFULLAPPOINTMENTPADEG)
    } else if upper == "GETFIOPADEG"@ {
        Some(DISPID_GETFIOPADEG)
    } else if upper == "GETIFPADEG"@ {
        Some(DISPID_GETIFPADEG)
    } else if upper == "GETIFPADEGFS"@ {
        Some(DISPID_GETIFPADEGFS)
    } else if upper == "SEPARATEFIO"@ {
        Some(DISPID_SEPARATEFIO)
    } else if upper == "SETDICTIONARY"@ {
        Some(DISPID_SETDICTIONARY)
    } else if upper == "UPDATE_EXCEPTIONS"@ {
        Some(DISPID_UPDATE_EXCEPTIONS)
    } else if upper == "GETEXCEPTIONSFILENAME"@ {
        Some(DISPID_GETEXCEPTIONSFILENAME)
    } else {
        None
    }
}

/// `GetIDsOfNames` for one name: the dispatch identifier, `None` when the
/// name is unknown.
pub fn dispid_of_name(name: &str) -> (r: Option<i32>)
    ensures
        r == dispid_for(uppercase(name@)),
{
    let upper = to_upper(name);
    let u = upper.as_str();
    if str_eq(u, "GETSEX") {
        Some(DISPID_GETSEX)
    } else if str_eq(u, "GETFIOPADEGFS") {
        Some(DISPID_GETFIOPADEGFS)
    } else if str_eq(u, "GETNOMINATIVEPADEG") {
        Some(DISPID_GETNOMINATIVEPADEG)
    } else if str_eq(u, "GETAPPOINTMENTPADEG") {
        Some(DISPID_GETAPPOINTMENTPADEG)
    } else if str_eq(u, "GETOFFICEPADEG") {
        Some(DISPID_GETOFFICEPADEG)
    } else if str_eq(u, "GETFULLAPPOINTMENTPADEG") {
        Some(DISPID_GETFULLAPPOINTMENTPADEG)
    } else if str_eq(u, "GETFIOPADEG") {
        Some(DISPID_GETFIOPADEG)
    } else if str_eq(u, "GETIFPADEG") {
        Some(DISPID_GETIFPADEG)
    } else if str_eq(u, "GETIFPADEGFS") {
        Some(DISPID_GETIFPADEGFS)
    } else if str_eq(u, "SEPARATEFIO") {
        Some(DISPID_SEPARATEFIO)
    } else if str_eq(u, "SETDICTIONARY") {
        Some(DISPID_SETDICTIONARY)
    } else if str_eq(u, "UPDATE_EXCEPTIONS") {
        Some(DISPID_UPDATE_EXCEPTIONS)
    } else if str_eq(u, "GETEXCEPTIONSFILENAME") {
        Some(DISPID_GETEXCEPTIONSFILENAME)
    } else {
        None
    }
}

/// A method of the dispatch interface.
#[derive(Clone, Copy, PartialEq, Eq, Debug, Structural)]
pub enum Method {
    /// `GetSex(FIO)`.
    GetSex,
    /// `GetFIOPadegFS(FIO, Sex, Padeg)`.
    GetFioPadegFs,
    /// `GetNominativePadeg(FIO)`.
    GetNominativePadeg,
    /// `GetAppointmentPadeg(Appointment, Padeg)`.
    GetAppointmentPadeg,
    /// `GetOfficePadeg(Office, Padeg)`.
    GetOfficePadeg,
    /// `GetFullAppointmentPadeg(Appointment, Office, Padeg)`.
    GetFullAppointmentPadeg,
    /// `GetFIOPadeg(LastName, FirstName, MiddleName, Sex, Padeg)`.
    GetFioPadeg,
    /// `GetIFPadeg(FirstName, LastName, Sex, Padeg)`.
    GetIfPadeg,
    /// `GetIFPadegFS(IF, Sex, Padeg)`.
    GetIfPadegFs,
    /// `SeparateFIO(FIO, out LastName, out FirstName, out MiddleName)`.
    SeparateFio,
    /// `SetDictionary(FileName)`.
    SetDictionary,
    /// `Update_Exceptions()`.
    UpdateExceptions,
    /// `GetExceptionsFileName()`.
    GetExceptionsFileName,
}

/// How an argument of a method is passed.
#[derive(Clone, Copy, PartialEq, Eq, Debug, Structural)]
pub enum ArgKind {
    /// A string, converted from the `VARIANT`.
    Text,
    /// An integer, converted from the `VARIANT`.
    Int,
    /// A by-reference output that receives a string.
    Out,
}

/// The method of a dispatch identifier.
pub open spec fn method_of(dispid: i32) -> Option<Method> {
    if dispid == DISPID_GETSEX {
        Some(Method::GetSex)
    } else if dispid == DISPID_GETFIOPADEGFS {
        Some(Method::GetFioPadegFs)
    } else if dispid == DISPID_GETNOMINATIVEPADEG {
        Some(Method::GetNominativePadeg)
    } else if dispid == DISPID_GETAPPOINTMENTPADEG {
        Some(Method::GetAppointmentPadeg)
    } else if dispid == DISPID_GETOFFICEPADEG {
        Some(Method::GetOfficePadeg)
    } else if dispid == DISPID_GETFULLAPPOINTMENTPADEG {
        Some(Method::GetFullAppointmentPadeg)
    } else if dispid == DISPID_GETFIOPADEG {
        Some(Method::GetFioPadeg)
    } else if dispid == DISPID_GETIFPADEG {
        Some(Method::GetIfPadeg)
    } else if dispid == DISPID_GETIFPADEGFS {
        Some(Method::GetIfPadegFs)
    } else if dispid == DISPID_SEPARATEFIO {
        Some(Method::SeparateFio)
    } else if dispid == DISPID_SETDICTIONARY {
        Some(Method::SetDictionary)
    } else if dispid == DISPID_UPDATE_EXCEPTIONS {
        Some(Method::UpdateExceptions)
    } else if dispid == DISPID_GETEXCEPTIONSFILENAME {
        Some(Method::GetExceptionsFileName)
    } else {
        None
    }
}

/// The arguments of a method, from left to right.
pub open spec fn params(m: Method) -> Seq<ArgKind> {
    match m {
        Method::GetSex => seq![ArgKind::Text],
        Method::GetFioPadegFs => seq![ArgKind::Text, ArgKind::Text, ArgKind::Int],
        Method::GetNominativePadeg => seq![ArgKind::Text],
        Method::GetAppointmentPadeg => seq![ArgKind::Text, ArgKind::Int],
        Method::GetOfficePadeg => seq![ArgKind::Text, ArgKind::Int],
        Method::GetFullAppointmentPadeg => seq![ArgKind::Text, ArgKind::Text, ArgKind::Int],
        Method::GetFioPadeg => seq![ArgKind::Text, ArgKind::Text, ArgKind::Text, ArgKind::Text, ArgKind::Int],
        Method::GetIfPadeg => seq![ArgKind::Text, ArgKind::Text, ArgKind::Text, ArgKind::Int],
        Method::GetIfPadegFs => seq![ArgKind::Text, ArgKind::Text, ArgKind::Int],
        Method::SeparateFio => seq![ArgKind::Text, ArgKind::Out, ArgKind::Out, ArgKind::Out],
        Method::SetDictionary => seq![ArgKind::Text],
        Method::UpdateExceptions => seq![],
        Method::GetExceptionsFileName => seq![],
    }
}

/// The arguments of a method (see `params`).
pub fn param_kinds(m: Method) -> (r: Vec<ArgKind>)
    ensures
        r@ == params(m),
{
    let r = match m {
        Method::GetSex => vec![ArgKind::Text],
        Method::GetFioPadegFs => vec![ArgKind::Text, ArgKind::Text, ArgKind::Int],
        Method::GetNominativePadeg => vec![ArgKind::Text],
        Method::GetAppointmentPadeg => vec![ArgKind::Text, ArgKind::Int],
        Method::GetOfficePadeg => vec![ArgKind::Text, ArgKind::Int],
        Method::GetFullAppointmentPadeg => vec![ArgKind::Text, ArgKind::Text, ArgKind::Int],
        Method::GetFioPadeg => vec![ArgKind::Text, ArgKind::Text, ArgKind::Text, ArgKind::Text, ArgKind::Int],
        Method::GetIfPadeg => vec![ArgKind::Text, ArgKind::Text, ArgKind::Text, ArgKind::Int],
        Method::GetIfPadegFs => vec![ArgKind::Text, ArgKind::Text, ArgKind::Int],
        Method::SeparateFio => vec![ArgKind::Text, ArgKind::Out, ArgKind::Out, ArgKind::Out],
        Method::SetDictionary => vec![ArgKind::Text],
        Method::UpdateExceptions => vec![],
        Method::GetExceptionsFileName => vec![],
    };
    assert(r@ =~= params(m));
    r
}

/// Why an `Invoke` call is refused before its arguments are read.
#[derive(Clone, Copy, PartialEq, Eq, Debug, Structural)]
pub enum InvokeRefusal {
    /// The dispatch identifier names no method (`DISP_E_MEMBERNOTFOUND`).
    MemberNotFound,
    /// The method takes another number of arguments (`DISP_E_BADPARAMCOUNT`).
    BadParamCount,
}

/// The method of a dispatch identifier and the number of its arguments.
pub open spec fn method_arity(dispid: i32) -> Option<(Method, usize)> {
    match method_of(dispid) {
        Some(m) => Some((m, params(m).len() as usize)),
        None => None,
    }
}

/// Selects the method of an `Invoke` call from its dispatch identifier and
/// positional argument count.
pub fn select_method(dispid: i32, c_args: usize) -> (r: Result<Method, InvokeRefusal>)
    ensures
        match method_arity(dispid) {
            None => r == Err::<Method, InvokeRefusal>(InvokeRefusal::MemberNotFound),
            Some((m, n)) => if c_args == n {
                r == Ok::<Method, InvokeRefusal>(m)
            } else {
                r == Err::<Method, InvokeRefusal>(InvokeRefusal::BadParamCount)
            },
        },
{
    let m = match dispid {
        DISPID_GETSEX => Method::GetSex,
        DISPID_GETFIOPADEGFS => Method::GetFioPadegFs,
        DISPID_GETNOMINATIVEPADEG => Method::GetNominativePadeg,
        DISPID_GETAPPOINTMENTPADEG => Method::GetAppointmentPadeg,
        DISPID_GETOFFICEPADEG => Method::GetOfficePadeg,
        DISPID_GETFULLAPPOINTMENTPADEG => Method::GetFullAppointmentPadeg,
        DISPID_GETFIOPADEG => Method::GetFioPadeg,
        DISPID_GETIFPADEG => Method::GetIfPadeg,
        DISPID_GETIFPADEGFS => Method::GetIfPadegFs,
        DISPID_SEPARATEFIO => Method::SeparateFio,
        DISPID_SETDICTIONARY => Method::SetDictionary,
        DISPID_UPDATE_EXCEPTIONS => Method::UpdateExceptions,
        DISPID_GETEXCEPTIONSFILENAME => Method::GetExceptionsFileName,
        _ => return Err(InvokeRefusal::MemberNotFound),
    };
    let kinds = param_kinds(m);
    if c_args == kinds.len() {
        Ok(m)
    } else {
        Err(InvokeRefusal::BadParamCount)
    }
}

/// `HRESULT` `E_POINTER` (0x80004003).
pub const E_POINTER: i32 = -0x7FFF_BFFD;

/// `HRESULT` `DISP_E_MEMBERNOTFOUND` (0x80020003).
pub const DISP_E_MEMBERNOTFOUND: i32 = -0x7FFD_FFFD;

/// `HRESULT` `DISP_E_TYPEMISMATCH` (0x80020005).
pub const DISP_E_TYPEMISMATCH: i32 = -0x7FFD_FFFB;

/// `HRESULT` `DISP_E_UNKNOWNNAME` (0x80020006).
pub const DISP_E_UNKNOWNNAME: i32 = -0x7FFD_FFFA;

/// `HRESULT` `DISP_E_EXCEPTION` (0x80020009).
pub const DISP_E_EXCEPTION: i32 = -0x7FFD_FFF7;

/// `HRESULT` `DISP_E_BADPARAMCOUNT` (0x8002000E).
pub const DISP_E_BADPARAMCOUNT: i32 = -0x7FFD_FFF2;

/// `DISPATCH_METHOD` flag of `Invoke`.
pub const DISPATCH_METHOD: u16 = 1;

/// Checks an `Invoke` call before any argument is read: it must be a method
/// call (`flags`), come with parameters (`params`: the counts of named and of
/// all arguments, `None` for a null pointer) without named ones, and name a
/// method with that many arguments. The error is the `HRESULT` to return.
pub open spec fn spec_check_invoke(flags: u16, params: Option<(u32, usize)>, dispid: i32) -> Result<
    Method,
    i32,
> {
    if flags & DISPATCH_METHOD == 0 {
        Err(DISP_E_MEMBERNOTFOUND)
    } else {
        match params {
            None => Err(E_POINTER),
            Some((named, c_args)) => if named != 0 {
                Err(DISP_E_MEMBERNOTFOUND)
            } else {
                match method_arity(dispid) {
                    None => Err(DISP_E_MEMBERNOTFOUND),
                    Some((m, n)) => if c_args == n {
                        Ok(m)
                    } else {
                        Err(DISP_E_BADPARAMCOUNT)
                    },
                }
            },
        }
    }
}

/// The checks of an `Invoke` call (see `spec_check_invoke`).
pub fn check_invoke(flags: u16, params: Option<(u32, usize)>, dispid: i32) -> (r: Result<
    Method,
    i32,
>)
    ensures
        r == spec_check_invoke(flags, params, dispid),
{
    if flags & DISPATCH_METHOD == 0 {
        return Err(DISP_E_MEMBERNOTFOUND);
    }
    match params {
        None => Err(E_POINTER),
        Some((named, c_args)) => {
            if named != 0 {
                return Err(DISP_E_MEMBERNOTFOUND);
            }
            match select_method(dispid, c_args) {
                Ok(m) => Ok(m),
                Err(InvokeRefusal::MemberNotFound) => Err(DISP_E_MEMBERNOTFOUND),
                Err(InvokeRefusal::BadParamCount) => Err(DISP_E_BADPARAMCOUNT),
            }
        },
    }
}

// ---------------------------------------------------------------------------
// Method calls
// ---------------------------------------------------------------------------

/// A converted argument of an `Invoke` call.
pub enum ArgValue {
    /// A string argument.
    Text(String),
    /// An integer argument.
    Int(i32),
    /// A by-reference output, filled after the call.
    Out,
}

/// What a method returns.
pub enum InvokeValue {
    /// An `Integer`.
    Int(i32),
    /// A `String`.
    Text(String),
    /// A `WordBool`.
    Flag(bool),
    /// The three strings for the outputs of `SeparateFIO` (last, first, middle).
    Parts(String, String, String),
}

/// A failed method call: the `HRESULT` to return, the padeg code for
/// `EXCEPINFO.scode`, and the message for `EXCEPINFO.bstrDescription`.
pub struct DispatchError {
    /// `HRESULT` of the call.
    pub hresult: i32,
    /// padeg error code (`CODE_BAD_PADEG`, `CODE_BAD_SEX`), 0 when there is none.
    pub scode: i32,
    /// Description of the error.
    pub message: String,
}

/// What a method call gives, as plain values.
pub enum Outcome {
    /// An `Integer` result.
    Int(i32),
    /// A `String` result.
    Text(Seq<char>),
    /// A `WordBool` result.
    Flag(bool),
    /// The outputs of `SeparateFIO`.
    Parts(Seq<char>, Seq<char>, Seq<char>),
    /// A failure: `HRESULT`, `scode`, message.
    Fail(i32, i32, Seq<char>),
}

/// The plain values of a method call's result.
pub open spec fn outcome_of(r: Result<InvokeValue, DispatchError>) -> Outcome {
    match r {
        Ok(InvokeValue::Int(n)) => Outcome::Int(n),
        Ok(InvokeValue::Text(s)) => Outcome::Text(s@),
        Ok(InvokeValue::Flag(b)) => Outcome::Flag(b),
        Ok(InvokeValue::Parts(a, b, c)) => Outcome::Parts(a@, b@, c@),
        Err(e) => Outcome::Fail(e.hresult, e.scode, e.message@),
    }
}

/// The argument has the kind the parameter asks for.
pub open spec fn kind_fits(k: ArgKind, a: ArgValue) -> bool {
    match a {
        ArgValue::Text(_) => k == ArgKind::Text,
        ArgValue::Int(_) => k == ArgKind::Int,
        ArgValue::Out => k == ArgKind::Out,
    }
}

/// The arguments match the parameters of `m` in number and kind.
pub open spec fn args_fit(m: Method, args: Seq<ArgValue>) -> bool {
    args.len() == params(m).len() && forall|i: int|
        0 <= i < args.len() ==> kind_fits(params(m)[i], #[trigger] args[i])
}

/// The `i`-th argument as a string.
pub open spec fn text_arg(args: Seq<ArgValue>, i: int) -> Seq<char> {
    match args[i] {
        ArgValue::Text(s) => s@,
        _ => Seq::empty(),
    }
}

/// The `i`-th argument as an integer.
pub open spec fn int_arg(args: Seq<ArgValue>, i: int) -> i32 {
    match args[i] {
        ArgValue::Int(n) => n,
        _ => 0,
    }
}

/// A padeg error becomes `DISP_E_EXCEPTION` with the padeg code as `scode`;
/// otherwise the text.
pub open spec fn failed_or(failure: Option<(i32, Seq<char>)>, value: Seq<char>) -> Outcome {
    match failure {
        Some((code, message)) => Outcome::Fail(DISP_E_EXCEPTION, code, message),
        None => Outcome::Text(value),
    }
}

/// What calling `m` with `args` gives: each method is the padeg function of
/// the same name; arguments of the wrong number or kind are a type mismatch.
pub open spec fn spec_invoke(m: Method, args: Seq<ArgValue>) -> Outcome {
    if !args_fit(m, args) {
        Outcome::Fail(DISP_E_TYPEMISMATCH, 0, Seq::empty())
    } else {
        match m {
            Method::GetSex => Outcome::Int(spec_get_sex(text_arg(args, 0))),
            Method::GetFioPadegFs => failed_or(
                input_failure(text_arg(args, 1), int_arg(args, 2)),
                fio_padeg_fs_text(text_arg(args, 0), text_arg(args, 1), int_arg(args, 2)),
            ),
            Method::GetNominativePadeg => Outcome::Text(text_arg(args, 0)),
            Method::GetAppointmentPadeg => failed_or(
                case_failure(int_arg(args, 1)),
                decline_text(text_arg(args, 0), some_of(padeg_case(int_arg(args, 1)))),
            ),
            Method::GetOfficePadeg => failed_or(
                case_failure(int_arg(args, 1)),
                decline_text(text_arg(args, 0), some_of(padeg_case(int_arg(args, 1)))),
            ),
            Method::GetFullAppointmentPadeg => failed_or(
                case_failure(int_arg(args, 2)),
                decline_text(
                    spec_merge(text_arg(args, 0), text_arg(args, 1)),
                    some_of(padeg_case(int_arg(args, 2))),
                ),
            ),
            Method::GetFioPadeg => failed_or(
                input_failure(text_arg(args, 3), int_arg(args, 4)),
                fio_padeg_text(
                    text_arg(args, 0),
                    text_arg(args, 1),
                    text_arg(args, 2),
                    text_arg(args, 3),
                    int_arg(args, 4),
                ),
            ),
            Method::GetIfPadeg => failed_or(
                input_failure(text_arg(args, 2), int_arg(args, 3)),
                if_padeg_text(text_arg(args, 0), text_arg(args, 1), text_arg(args, 2), int_arg(args, 3)),
            ),
            Method::GetIfPadegFs => failed_or(
                input_failure(text_arg(args, 1), int_arg(args, 2)),
                if_padeg_fs_text(text_arg(args, 0), text_arg(args, 1), int_arg(args, 2)),
            ),
            Method::SeparateFio => Outcome::Parts(
                word_or_empty(text_arg(args, 0), 0),
                word_or_empty(text_arg(args, 0), 1),
                word_or_empty(text_arg(args, 0), 2),
            ),
            Method::SetDictionary => Outcome::Flag(false),
            Method::UpdateExceptions => Outcome::Flag(true),
            Method::GetExceptionsFileName => Outcome::Text(Seq::empty()),
        }
    }
}

/// A padeg result as a method result.
fn text_result(r: Result<String, PadegError>) -> (out: Result<InvokeValue, DispatchError>)
    ensures
        outcome_of(out) == match r {
            Ok(s) => Outcome::Text(s@),
            Err(e) => Outcome::Fail(DISP_E_EXCEPTION, e.code, e.message@),
        },
{
    match r {
        Ok(s) => Ok(InvokeValue::Text(s)),
        Err(e) => Err(DispatchError { hresult: DISP_E_EXCEPTION, scode: e.code, message: e.message }),
    }
}

fn fits(m: Method, args: &Vec<ArgValue>) -> (r: bool)
    ensures
        r == args_fit(m, args@),
{
    let kinds = param_kinds(m);
    if kinds.len() != args.len() {
        return false;
    }
    let mut i: usize = 0;
    while i < args.len()
        invariant
            kinds@ == params(m),
            kinds.len() == args.len(),
            i <= args.len(),
            forall|j: int| 0 <= j < i ==> kind_fits(params(m)[j], #[trigger] args@[j]),
        decreases args.len() - i,
    {
        let ok = match &args[i] {
            ArgValue::Text(_) => kinds[i] == ArgKind::Text,
            ArgValue::Int(_) => kinds[i] == ArgKind::Int,
            ArgValue::Out => kinds[i] == ArgKind::Out,
        };
        if !ok {
            assert(!kind_fits(params(m)[i as int], args@[i as int]));
            return false;
        }
        i = i + 1;
    }
    true
}

fn text_at(args: &Vec<ArgValue>, i: usize) -> (r: &str)
    requires
        i < args.len(),
    ensures
        r@ == text_arg(args@, i as int),
{
    match &args[i] {
        ArgValue::Text(s) => s.as_str(),
        _ => {
            proof {
                reveal_strlit("");
            }
            ""
        },
    }
}

fn int_at(args: &Vec<ArgValue>, i: usize) -> (r: i32)
    requires
        i < args.len(),
    ensures
        r == int_arg(args@, i as int),
{
    match &args[i] {
        ArgValue::Int(n) => *n,
        _ => 0,
    }
}

/// Calls method `m` with converted arguments (see `spec_invoke`).
pub fn invoke(m: Method, args: &Vec<ArgValue>) -> (r: Result<InvokeValue, DispatchError>)
    ensures
        outcome_of(r) == spec_invoke(m, args@),
{
    if !fits(m, args) {
        return Err(
            DispatchError { hresult: DISP_E_TYPEMISMATCH, scode: 0, message: String::new() },
        );
    }
    assert(args@.len() == params(m).len());
    match m {
        Method::GetSex => Ok(InvokeValue::Int(get_sex(text_at(args, 0)))),
        Method::GetFioPadegFs => text_result(
            get_fio_padeg_fs(text_at(args, 0), text_at(args, 1), int_at(args, 2)),
        ),
        Method::GetNominativePadeg => Ok(InvokeValue::Text(get_nominative_padeg(text_at(args, 0)))),
        Method::GetAppointmentPadeg => text_result(
            get_appointment_padeg(text_at(args, 0), int_at(args, 1)),
        ),
        Method::GetOfficePadeg => text_result(get_office_padeg(text_at(args, 0), int_at(args, 1))),
        Method::GetFullAppointmentPadeg => text_result(
            get_full_appointment_padeg(text_at(args, 0), text_at(args, 1), int_at(args, 2)),
        ),
        Method::GetFioPadeg => text_result(
            get_fio_padeg(
                text_at(args, 0),
                text_at(args, 1),
                text_at(args, 2),
                text_at(args, 3),
                int_at(args, 4),
            ),
        ),
        Method::GetIfPadeg => text_result(
            get_if_padeg(text_at(args, 0), text_at(args, 1), text_at(args, 2), int_at(args, 3)),
        ),
        Method::GetIfPadegFs => text_result(
            get_if_padeg_fs(text_at(args, 0), text_at(args, 1), int_at(args, 2)),
        ),
        Method::SeparateFio => {
            let (a, b, c) = get_fio_parts(text_at(args, 0));
            Ok(InvokeValue::Parts(a, b, c))
        },
        Method::SetDictionary => Ok(InvokeValue::Flag(set_dictionary(text_at(args, 0)))),
        Method::UpdateExceptions => Ok(InvokeValue::Flag(update_exceptions())),
        Method::GetExceptionsFileName => Ok(InvokeValue::Text(get_exceptions_file_name())),
    }
}

/// Where a string output of `SeparateFIO` goes, by the tag of its argument.
#[derive(Clone, Copy, PartialEq, Eq, Debug, Structural)]
pub enum OutTarget {
    /// `VT_VARIANT|VT_BYREF` with a pointer: the `VARIANT` pointed to.
    Variant,
    /// `VT_BSTR|VT_BYREF` with a pointer: the `BSTR` pointed to.
    Bstr,
    /// Anything else cannot receive the string (`DISP_E_TYPEMISMATCH`).
    Mismatch,
}

/// Where the output with tag `vt` and pointer `d1` is written.
pub open spec fn spec_out_target(vt: u16, d1: usize) -> OutTarget {
    if d1 != 0 && vt == (VT_VARIANT | VT_BYREF) {
        OutTarget::Variant
    } else if d1 != 0 && vt == (VT_BSTR | VT_BYREF) {
        OutTarget::Bstr
    } else {
        OutTarget::Mismatch
    }
}

/// Where an output argument is written (see `spec_out_target`).
pub fn out_target(vt: u16, d1: usize) -> (r: OutTarget)
    ensures
        r == spec_out_target(vt, d1),
{
    if d1 != 0 && vt == (VT_VARIANT | VT_BYREF) {
        OutTarget::Variant
    } else if d1 != 0 && vt == (VT_BSTR | VT_BYREF) {
        OutTarget::Bstr
    } else {
        OutTarget::Mismatch
    }
}

// ---------------------------------------------------------------------------
// VARIANT arguments
// ---------------------------------------------------------------------------

/// `VT_EMPTY`.
pub const VT_EMPTY: u16 = 0;

/// `VT_NULL`.
pub const VT_NULL: u16 = 1;

/// `VT_I2`.
pub const VT_I2: u16 = 2;

/// `VT_I4`.
pub const VT_I4: u16 = 3;

/// `VT_R8`.
pub const VT_R8: u16 = 5;

/// `VT_BSTR`.
pub const VT_BSTR: u16 = 8;

/// `VT_BOOL`.
pub const VT_BOOL: u16 = 11;

/// `VT_VARIANT`.
pub const VT_VARIANT: u16 = 12;

/// `VT_UI4`.
pub const VT_UI4: u16 = 19;

/// `VT_BYREF` flag.
pub const VT_BYREF: u16 = 0x4000;

/// Number of by-reference levels that are followed at most.
pub const MAX_ALIAS_DEPTH: usize = 8;

/// What to read through the pointer of a by-reference `VARIANT` payload.
#[derive(Clone, Copy, PartialEq, Eq, Debug, Structural)]
pub enum AliasRead {
    /// A whole `VARIANT`: go on with its tag and payload.
    Variant,
    /// A machine word holding a `BSTR`; the tag becomes `VT_BSTR`.
    Bstr,
    /// A 16-bit value; the tag becomes the given one.
    Bits16(u16),
    /// A 32-bit value; the tag becomes the given one.
    Bits32(u16),
    /// A 64-bit value spread over both payload words; the tag becomes the given one.
    Bits64(u16),
    /// Nothing more to follow.
    Stop,
}

/// The read that resolves one by-reference level of a payload with tag `vt`
/// and first word `d1` (a null pointer stops).
pub open spec fn spec_alias_read(vt: u16, d1: usize) -> AliasRead {
    if vt & VT_BYREF == 0 || d1 == 0 {
        AliasRead::Stop
    } else {
        let base = vt & !VT_BYREF;
        if base == VT_VARIANT {
            AliasRead::Variant
        } else if base == VT_BSTR {
            AliasRead::Bstr
        } else if base == VT_I2 || base == VT_BOOL {
            AliasRead::Bits16(base)
        } else if base == VT_I4 || base == VT_UI4 {
            AliasRead::Bits32(base)
        } else if base == VT_R8 {
            AliasRead::Bits64(base)
        } else {
            AliasRead::Stop
        }
    }
}

/// One step of resolving a by-reference `VARIANT` (see `spec_alias_read`).
pub fn alias_read(vt: u16, d1: usize) -> (r: AliasRead)
    ensures
        r == spec_alias_read(vt, d1),
{
    if vt & VT_BYREF == 0 || d1 == 0 {
        return AliasRead::Stop;
    }
    let base = vt & !VT_BYREF;
    if base == VT_VARIANT {
        AliasRead::Variant
    } else if base == VT_BSTR {
        AliasRead::Bstr
    } else if base == VT_I2 || base == VT_BOOL {
        AliasRead::Bits16(base)
    } else if base == VT_I4 || base == VT_UI4 {
        AliasRead::Bits32(base)
    } else if base == VT_R8 {
        AliasRead::Bits64(base)
    } else {
        AliasRead::Stop
    }
}

/// The payload once no more levels are followed: one still marked by
/// reference with a null pointer is empty.
pub open spec fn spec_settled(vt: u16, d1: usize, d2: usize) -> (u16, usize, usize) {
    if d1 == 0 && vt & VT_BYREF != 0 {
        (VT_EMPTY, 0usize, 0usize)
    } else {
        (vt, d1, d2)
    }
}

/// The payload once no more levels are followed (see `spec_settled`).
pub fn settled(vt: u16, d1: usize, d2: usize) -> (r: (u16, usize, usize))
    ensures
        r == spec_settled(vt, d1, d2),
{
    if d1 == 0 && vt & VT_BYREF != 0 {
        (VT_EMPTY, 0, 0)
    } else {
        (vt, d1, d2)
    }
}

/// A resolved `VARIANT` as a string argument.
pub enum ArgText {
    /// The text.
    Text(String),
    /// The text of the `BSTR` the payload points to.
    ReadBstr,
    /// The double in the payload, written out.
    FormatDouble,
    /// Not convertible (`DISP_E_TYPEMISMATCH`).
    Mismatch,
}

/// The 16-bit payload read as a signed number.
pub open spec fn low_i16(d1: usize) -> i16 {
    (d1 as u16) as i16
}

/// The 32-bit payload read as a signed number.
pub open spec fn low_i32(d1: usize) -> i32 {
    (d1 as u32) as i32
}

/// The string argument of a resolved payload: empty for `VT_EMPTY`/`VT_NULL`,
/// the decimal number for integers, `False`/`True` for booleans.
pub open spec fn spec_arg_text(vt: u16, d1: usize) -> Option<Seq<char>> {
    if vt == VT_EMPTY || vt == VT_NULL {
        Some(Seq::empty())
    } else if vt == VT_I2 {
        Some(decimal(low_i16(d1) as int))
    } else if vt == VT_I4 {
        Some(decimal(low_i32(d1) as int))
    } else if vt == VT_UI4 {
        Some(digits((d1 as u32) as nat))
    } else if vt == VT_BOOL {
        Some(
            if low_i16(d1) == 0 {
                "False"@
            } else {
                "True"@
            },
        )
    } else {
        None
    }
}

/// Converts a resolved payload to a string argument (see `spec_arg_text`);
/// a `BSTR` and a double are left to the caller.
pub fn arg_text(vt: u16, d1: usize) -> (r: ArgText)
    ensures
        match r {
            ArgText::Text(s) => spec_arg_text(vt, d1) == Some(s@),
            ArgText::ReadBstr => vt == VT_BSTR,
            ArgText::FormatDouble => vt == VT_R8,
            ArgText::Mismatch => spec_arg_text(vt, d1) is None && vt != VT_BSTR && vt != VT_R8,
        },
{
    if vt == VT_EMPTY || vt == VT_NULL {
        ArgText::Text(String::new())
    } else if vt == VT_BSTR {
        ArgText::ReadBstr
    } else if vt == VT_I2 {
        let v: i16 = (d1 as u16) as i16;
        ArgText::Text(int_to_string(v as i32))
    } else if vt == VT_I4 {
        let v: i32 = (d1 as u32) as i32;
        ArgText::Text(int_to_string(v))
    } else if vt == VT_UI4 {
        let mut s = String::new();
        push_digits(&mut s, (d1 as u32) as u64);
        ArgText::Text(s)
    } else if vt == VT_R8 {
        ArgText::FormatDouble
    } else if vt == VT_BOOL {
        let v: i16 = (d1 as u16) as i16;
        if v == 0 {
            ArgText::Text("False".to_owned())
        } else {
            ArgText::Text("True".to_owned())
        }
    } else {
        ArgText::Mismatch
    }
}

/// A resolved `VARIANT` as an integer argument.
#[derive(Clone, Copy, PartialEq, Eq, Debug, Structural)]
pub enum ArgInt {
    /// The number.
    Int(i32),
    /// The number written in the `BSTR` the payload points to.
    ParseBstr,
    /// The double in the payload, truncated.
    TruncateDouble,
    /// Not convertible (`DISP_E_TYPEMISMATCH`).
    Mismatch,
}

/// The integer argument of a resolved payload: integers as they are (an
/// unsigned one reinterpreted), booleans as 0 or 1.
pub open spec fn spec_arg_int(vt: u16, d1: usize) -> ArgInt {
    if vt == VT_I2 {
        ArgInt::Int(low_i16(d1) as i32)
    } else if vt == VT_I4 || vt == VT_UI4 {
        ArgInt::Int(low_i32(d1))
    } else if vt == VT_R8 {
        ArgInt::TruncateDouble
    } else if vt == VT_BOOL {
        ArgInt::Int(
            if low_i16(d1) == 0 {
                0
            } else {
                1
            },
        )
    } else if vt == VT_BSTR {
        ArgInt::ParseBstr
    } else {
        ArgInt::Mismatch
    }
}

/// Converts a resolved payload to an integer argument (see `spec_arg_int`).
pub fn arg_int(vt: u16, d1: usize) -> (r: ArgInt)
    ensures
        r == spec_arg_int(vt, d1),
{
    if vt == VT_I2 {
        let v: i16 = (d1 as u16) as i16;
        ArgInt::Int(v as i32)
    } else if vt == VT_I4 || vt == VT_UI4 {
        ArgInt::Int((d1 as u32) as i32)
    } else if vt == VT_R8 {
        ArgInt::TruncateDouble
    } else if vt == VT_BOOL {
        let v: i16 = (d1 as u16) as i16;
        ArgInt::Int(
            if v == 0 {
                0
            } else {
                1
            },
        )
    } else if vt == VT_BSTR {
        ArgInt::ParseBstr
    } else {
        ArgInt::Mismatch
    }
}

/// One string value to write under `HKEY_CURRENT_USER`.
pub struct RegistryValue {
    /// Key path below `HKEY_CURRENT_USER`.
    pub key: String,
    /// Value name; `None` is the key's default value.
    pub name: Option<String>,
    /// String data.
    pub data: String,
}

impl RegistryValue {
    /// (key, name, data) as character sequences.
    pub open spec fn parts(&self) -> (Seq<char>, Option<Seq<char>>, Seq<char>) {
        (
            self.key@,
            match self.name {
                Some(n) => Some(n@),
                None => None,
            },
            self.data@,
        )
    }
}

/// `Software\Classes\CLSID\{…}`.
pub open spec fn clsid_key() -> Seq<char> {
    "Software\\Classes\\CLSID\\"@ + CLSID_DECLENSION_STR@
}

/// `Software\Classes\<progid>`.
pub open spec fn progid_key(progid: Seq<char>) -> Seq<char> {
    "Software\\Classes\\"@ + progid
}

/// The registry values of a per-user in-process server registration, in the
/// order they are written.
pub open spec fn registration(dll_path: Seq<char>) -> Seq<(Seq<char>, Option<Seq<char>>, Seq<char>)> {
    seq![
        (clsid_key(), None, FRIENDLY_NAME@),
        (clsid_key() + "\\InprocServer32"@, None, dll_path),
        (clsid_key() + "\\InprocServer32"@, Some("ThreadingModel"@), "Apartment"@),
        (clsid_key() + "\\ProgID"@, None, PROGID_PADEG_UCA@),
        (progid_key(PROGID_PADEG_UCA@), None, FRIENDLY_NAME@),
        (progid_key(PROGID_PADEG_UCA@) + "\\CLSID"@, None, CLSID_DECLENSION_STR@),
        (progid_key(PROGID_PADEG@), None, FRIENDLY_NAME@),
        (progid_key(PROGID_PADEG@) + "\\CLSID"@, None, CLSID_DECLENSION_STR@),
        (progid_key(PROGID_PETROVICH@), None, FRIENDLY_NAME@),
        (progid_key(PROGID_PETROVICH@) + "\\CLSID"@, None, CLSID_DECLENSION_STR@),
    ]
}

fn concat2(a: &str, b: &str) -> (r: String)
    ensures
        r@ == a@ + b@,
{
    let mut r = a.to_owned();
    r.append(b);
    r
}

fn value(key: String, name: Option<String>, data: &str) -> (r: RegistryValue)
    ensures
        r.key == key,
        r.name == name,
        r.data@ == data@,
{
    RegistryValue { key, name, data: data.to_owned() }
}

/// The registry values to write (under `HKEY_CURRENT_USER\Software\Classes`
/// only) to register the server DLL at `dll_path`, in order.
pub fn register_inproc_server(dll_path: &str) -> (r: Vec<RegistryValue>)
    ensures
        r@.map_values(|v: RegistryValue| v.parts()) == registration(dll_path@),
{
    let clsid = concat2("Software\\Classes\\CLSID\\", CLSID_DECLENSION_STR);
    let inproc = concat2(clsid.as_str(), "\\InprocServer32");
    let progid_uca = concat2("Software\\Classes\\", PROGID_PADEG_UCA);
    let progid_padeg = concat2("Software\\Classes\\", PROGID_PADEG);
    let progid_petrovich = concat2("Software\\Classes\\", PROGID_PETROVICH);
    let mut out: Vec<RegistryValue> = Vec::new();
    out.push(value(clsid.clone(), None, FRIENDLY_NAME));
    out.push(value(inproc.clone(), None, dll_path));
    out.push(value(inproc, Some("ThreadingModel".to_owned()), "Apartment"));
    out.push(value(concat2(clsid.as_str(), "\\ProgID"), None, PROGID_PADEG_UCA));
    out.push(value(progid_uca.clone(), None, FRIENDLY_NAME));
    out.push(value(concat2(progid_uca.as_str(), "\\CLSID"), None, CLSID_DECLENSION_STR));
    out.push(value(progid_padeg.clone(), None, FRIENDLY_NAME));
    out.push(value(concat2(progid_padeg.as_str(), "\\CLSID"), None, CLSID_DECLENSION_STR));
    out.push(value(progid_petrovich.clone(), None, FRIENDLY_NAME));
    out.push(value(concat2(progid_petrovich.as_str(), "\\CLSID"), None, CLSID_DECLENSION_STR));
    assert(out@.map_values(|v: RegistryValue| v.parts()) =~= registration(dll_path@));
    out
}

/// The registry keys that unregistering removes, in order.
pub open spec fn unregistration() -> Seq<Seq<char>> {
    seq![
        clsid_key(),
        progid_key(PROGID_PADEG_UCA@),
        progid_key(PROGID_PADEG@),
        progid_key(PROGID_PETROVICH@),
    ]
}

/// The registry keys (trees below `HKEY_CURRENT_USER`) to delete to
/// unregister the server, in order.
pub fn unregister_inproc_server() -> (r: Vec<String>)
    ensures
        r.deep_view() == unregistration(),
{
    let mut out: Vec<String> = Vec::new();
    out.push(concat2("Software\\Classes\\CLSID\\", CLSID_DECLENSION_STR));
    out.push(concat2("Software\\Classes\\", PROGID_PADEG_UCA));
    out.push(concat2("Software\\Classes\\", PROGID_PADEG));
    out.push(concat2("Software\\Classes\\", PROGID_PETROVICH));
    assert(out.deep_view() =~= unregistration());
    out
}

// ---------------------------------------------------------------------------
// Caller-buffer protocol of the flat exports
// ---------------------------------------------------------------------------

/// Number of UTF-16 code units of one character.
pub open spec fn utf16_units(c: char) -> nat {
    if (c as u32) >= 0x10000 {
        2
    } else {
        1
    }
}

/// Number of UTF-16 code units of a text.
pub open spec fn utf16_len(s: Seq<char>) -> nat
    decreases s.len(),
{
    if s.len() == 0 {
        0
    } else {
        utf16_len(s.drop_last()) + utf16_units(s.last())
    }
}

proof fn lemma_utf16_len_bound(s: Seq<char>)
    ensures
        utf16_len(s) <= 2 * s.len(),
    decreases s.len(),
{
    if s.len() > 0 {
        lemma_utf16_len_bound(s.drop_last());
    }
}

/// Number of UTF-16 code units of `s` (what `s.encode_utf16().count()` is).
pub fn utf16_length(s: &str) -> (r: usize)
    requires
        2 * s@.len() <= usize::MAX,
    ensures
        r == utf16_len(s@),
{
    let n = s.unicode_len();
    let mut total: usize = 0;
    let mut i: usize = 0;
    while i < n
        invariant
            n == s@.len(),
            2 * n <= usize::MAX,
            i <= n,
            total == utf16_len(s@.take(i as int)),
        decreases n - i,
    {
        proof {
            assert(s@.take(i + 1).drop_last() =~= s@.take(i as int));
            lemma_utf16_len_bound(s@.take(i as int));
        }
        let c = s.get_char(i);
        if (c as u32) >= 0x10000 {
            total = total + 2;
        } else {
            total = total + 1;
        }
        i = i + 1;
    }
    assert(s@.take(n as int) =~= s@);
    total
}

/// What to do with a caller's buffer of `capacity` code units (the value the
/// caller put in `nLen`, read as an unsigned size) for a text of `len` code
/// units: `None` when the capacity is zero (nothing is written); otherwise
/// the number of units copied (leaving room for the terminator) and the code.
pub open spec fn write_plan(capacity: usize, len: usize) -> Option<(usize, i32)> {
    if capacity == 0 {
        None
    } else {
        let n = if len < capacity - 1 {
            len
        } else {
            (capacity - 1) as usize
        };
        Some((n, if len > n { CODE_SMALL_BUFFER } else { CODE_OK }))
    }
}

/// The buffer protocol decision (see `write_plan`).
pub fn plan_write(capacity: usize, len: usize) -> (r: Option<(usize, i32)>)
    ensures
        r == write_plan(capacity, len),
{
    if capacity == 0 {
        return None;
    }
    let n = if len < capacity - 1 {
        len
    } else {
        capacity - 1
    };
    Some((n, if len > n { CODE_SMALL_BUFFER } else { CODE_OK }))
}

/// The sex string a padeg `Boolean` stands for: its low byte non-zero is
/// masculine.
pub open spec fn bool_sex(b_sex: i32) -> Seq<char> {
    if b_sex as u8 != 0 {
        "м"@
    } else {
        "ж"@
    }
}

/// The sex string of a padeg `Boolean` argument.
pub fn sex_of_bool(b_sex: i32) -> (r: &'static str)
    ensures
        r@ == bool_sex(b_sex),
{
    if b_sex as u8 != 0 {
        "м"
    } else {
        "ж"
    }
}

/// The code to report for the part written with code `rc`, where a too-small
/// buffer stands for `small_code`.
pub fn part_code(rc: i32, small_code: i32) -> (r: i32)
    ensures
        r == (if rc == CODE_SMALL_BUFFER {
            small_code
        } else {
            CODE_OK
        }),
{
    if rc == CODE_SMALL_BUFFER {
        small_code
    } else {
        CODE_OK
    }
}

// ---------------------------------------------------------------------------
// Laws
// ---------------------------------------------------------------------------

/// A text is written whole, with success, exactly when it is shorter than
/// the caller's buffer (one unit stays for the terminator).
pub proof fn law_whole_text_iff_it_fits(capacity: usize, len: usize)
    ensures
        (write_plan(capacity, len) == Some((len, CODE_OK))) <==> len < capacity,
{
}

/// Registration writes only below `Software\Classes` of the current user.
pub proof fn law_registration_stays_in_user_classes(dll_path: Seq<char>)
    ensures
        forall|i: int|
            0 <= i < registration(dll_path).len() ==> #[trigger] registration(dll_path)[i].0.take(
                17,
            ) == "Software\\Classes\\"@,
        forall|i: int|
            0 <= i < unregistration().len() ==> #[trigger] unregistration()[i].take(17)
                == "Software\\Classes\\"@,
{
    reveal_strlit("Software\\Classes\\");
    reveal_strlit("Software\\Classes\\CLSID\\");
    let prefix = "Software\\Classes\\"@;
    assert(prefix.len() == 17);
    assert("Software\\Classes\\CLSID\\"@.take(17) =~= prefix);
    let reg = registration(dll_path);
    assert forall|i: int| 0 <= i < reg.len() implies #[trigger] reg[i].0.take(17) == prefix by {
        assert(reg[i].0.take(17) =~= prefix);
    }
    let un = unregistration();
    assert forall|i: int| 0 <= i < un.len() implies #[trigger] un[i].take(17) == prefix by {
        assert(un[i].take(17) =~= prefix);
    }
}

} // verus!
