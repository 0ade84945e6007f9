use idalib_ts::address::{alignment_to_u32, count_to_u32, plan_head_search, AddressArg, HeadSearch};
use idalib_ts::comment::comment_is_repeatable;
use idalib_ts::error::{map_ida_error, Error, ErrorCategory, IdaErrorKind};
use idalib_ts::text::{
    alt_hex_string, concat3, decimal_string, radix_string, signed_decimal_string, str_equals,
    str_starts_with,
};

#[test]
fn decimal_text_of_numbers() {
    assert_eq!(decimal_string(0), "0");
    assert_eq!(decimal_string(7), "7");
    assert_eq!(decimal_string(10), "10");
    assert_eq!(decimal_string(1234), "1234");
    assert_eq!(decimal_string(u64::MAX), u64::MAX.to_string());
}

#[test]
fn signed_decimal_text_of_numbers() {
    assert_eq!(signed_decimal_string(-5), "-5");
    assert_eq!(signed_decimal_string(0), "0");
    assert_eq!(signed_decimal_string(42), "42");
    assert_eq!(signed_decimal_string(i64::MIN), i64::MIN.to_string());
    assert_eq!(signed_decimal_string(i64::MAX), i64::MAX.to_string());
}

#[test]
fn hex_text_matches_alternate_format() {
    for n in [0u64, 1, 9, 10, 15, 16, 255, 0x1234abcd, u64::MAX] {
        assert_eq!(alt_hex_string(n), format!("{:#x}", n));
    }
}

#[test]
fn radix_text_roundtrip_on_values() {
    for base in 2u64..=16 {
        for n in [0u64, 1, 2, 15, 16, 17, 100, 65535, 1 << 40] {
            let text = radix_string(n, base);
            assert_eq!(u64::from_str_radix(&text, base as u32).unwrap(), n);
            assert!(n == 0 || !text.starts_with('0'));
        }
    }
}

#[test]
fn prefix_and_equality_on_strings() {
    assert!(str_starts_with("sub_401000", "sub_"));
    assert!(str_starts_with("sub_", "sub_"));
    assert!(str_starts_with("anything", ""));
    assert!(!str_starts_with("sub", "sub_"));
    assert!(!str_starts_with("main", "sub_"));
    assert!(str_starts_with("\u{e9}t\u{e9}", "\u{e9}t"));
    assert!(str_equals("data", "data"));
    assert!(!str_equals("data", "dat"));
    assert!(!str_equals("code", "data"));
    assert_eq!(concat3("a", "bc", ""), "abc");
}

#[test]
fn error_reasons() {
    assert_eq!(Error::NegativeAddress.reason(), "Address cannot be negative");
    assert_eq!(Error::NegativeBound.reason(), "Bound address cannot be negative");
    assert_eq!(Error::DatabaseClosed.reason(), "Database is closed");
    assert_eq!(Error::Lock("poisoned".to_string()).reason(), "LockError: poisoned");
    assert_eq!(
        Error::Ida(ErrorCategory::DatabaseOpen, "boom".to_string()).reason(),
        "DatabaseOpenError: boom"
    );
    assert_eq!(Error::FunctionNotFound.reason(), "Function not found");
    assert_eq!(Error::Cfg("bad".to_string()).reason(), "CFGError: bad");
    assert_eq!(
        Error::DecompilerUnavailable.reason(),
        "DecompilerError: Decompiler is not available"
    );
    assert_eq!(Error::NoFunctionAtAddress.reason(), "DecompilerError: No function at address");
    assert_eq!(Error::Decompile("x".to_string()).reason(), "DecompilerError: x");
}

#[test]
fn ida_errors_are_reported_under_their_category() {
    let msg = || "could not open IDA database: error code 3".to_string();
    assert_eq!(map_ida_error(IdaErrorKind::Init, msg()).reason(), format!("IDALibError: {}", msg()));
    assert_eq!(map_ida_error(IdaErrorKind::FileNotFound, msg()).reason(), format!("IDALibError: {}", msg()));
    assert_eq!(map_ida_error(IdaErrorKind::OpenDb, msg()).reason(), format!("DatabaseOpenError: {}", msg()));
    assert_eq!(map_ida_error(IdaErrorKind::CloseDb, msg()).reason(), format!("IDALibError: {}", msg()));
    assert_eq!(
        map_ida_error(IdaErrorKind::InvalidLicense, msg()).reason(),
        "LicenseError: Invalid idalib license"
    );
    assert_eq!(map_ida_error(IdaErrorKind::Ffi, msg()).reason(), format!("IDALibError: {}", msg()));
    assert_eq!(map_ida_error(IdaErrorKind::HexRays, msg()).reason(), format!("DecompilerError: {}", msg()));
    assert_eq!(map_ida_error(IdaErrorKind::MakeSigs, msg()).reason(), format!("IDALibError: {}", msg()));
    assert_eq!(
        map_ida_error(IdaErrorKind::GetVersion, msg()).reason(),
        "IDALibError: Failed to get version"
    );
    assert_eq!(ErrorCategory::License.label(), "LicenseError");
}

#[test]
fn address_arguments() {
    let neg = AddressArg { negative: true, value: 5 };
    let pos = AddressArg { negative: false, value: 0x401000 };
    assert!(matches!(neg.to_address(), Err(Error::NegativeAddress)));
    assert!(matches!(neg.to_bound(), Err(Error::NegativeBound)));
    assert!(matches!(pos.to_address(), Ok(0x401000)));
    assert!(matches!(pos.to_bound(), Ok(0x401000)));
}

#[test]
fn head_search_plans() {
    assert_eq!(plan_head_search(10, None).unwrap(), HeadSearch::Unbounded(10));
    assert_eq!(
        plan_head_search(10, Some(AddressArg { negative: false, value: 20 })).unwrap(),
        HeadSearch::Bounded(10, 20)
    );
    assert!(matches!(
        plan_head_search(10, Some(AddressArg { negative: true, value: 20 })),
        Err(Error::NegativeBound)
    ));
}

#[test]
fn small_casts() {
    assert_eq!(alignment_to_u32(Some(4)), Some(4));
    assert_eq!(alignment_to_u32(None), None);
    assert_eq!(count_to_u32(12), 12);
    if usize::BITS == 64 {
        assert_eq!(count_to_u32(((1u64 << 32) + 5) as usize), 5);
    }
}

#[test]
fn repeatable_comments_only_on_request() {
    assert!(comment_is_repeatable(Some(true)));
    assert!(!comment_is_repeatable(Some(false)));
    assert!(!comment_is_repeatable(None));
}
