use windows_task_scheduler::numerals::{hex_string, signed_text, unsigned_text};

#[test]
fn unsigned_decimal() {
    assert_eq!(unsigned_text(0), "0");
    assert_eq!(unsigned_text(7), "7");
    assert_eq!(unsigned_text(1234), "1234");
    assert_eq!(unsigned_text(u64::MAX), "18446744073709551615");
}

#[test]
fn signed_decimal() {
    assert_eq!(signed_text(0), "0");
    assert_eq!(signed_text(42), "42");
    assert_eq!(signed_text(-42), "-42");
    assert_eq!(signed_text(isize::MIN), isize::MIN.to_string());
    assert_eq!(signed_text(isize::MAX), isize::MAX.to_string());
}

#[test]
fn hexadecimal() {
    assert_eq!(hex_string(0), "0");
    assert_eq!(hex_string(255), "FF");
    assert_eq!(hex_string(0x8004_1319), "80041319");
    assert_eq!(hex_string(u32::MAX), "FFFFFFFF");
}
