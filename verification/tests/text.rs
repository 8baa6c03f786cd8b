use libvmi::cstring::{c_string, is_c_name};
use libvmi::decode::decode_lossy;
use libvmi::message::{
    offset_failure_text, pause_failure_text, read_ksym_failure_text, read_va_failure_text,
    resume_failure_text, teardown_destroy_failure_text, teardown_resume_failure_text,
    translate_failure_text, Datum,
};
use libvmi::native::{is_failure, VMI_FAILURE, VMI_SUCCESS};
use libvmi::render::{push_decimal, push_decimal_nat, push_upper_hex};

fn hex(v: u64) -> String {
    let mut s = String::new();
    push_upper_hex(&mut s, v);
    s
}

fn dec(v: i32) -> String {
    let mut s = String::new();
    push_decimal(&mut s, v);
    s
}

#[test]
fn hexadecimal_is_upper_case_without_padding() {
    assert_eq!(hex(0), "0");
    assert_eq!(hex(9), "9");
    assert_eq!(hex(10), "A");
    assert_eq!(hex(15), "F");
    assert_eq!(hex(16), "10");
    assert_eq!(hex(255), "FF");
    assert_eq!(hex(0xdeadbeef), "DEADBEEF");
    assert_eq!(hex(0x0123_4567_89ab_cdef), "123456789ABCDEF");
    assert_eq!(hex(u64::MAX), "FFFFFFFFFFFFFFFF");
}

#[test]
fn hexadecimal_agrees_with_the_formatter() {
    let samples = [0u64, 1, 0xa, 0x10, 0xfff, 0x1000, 0xdead_beef, 1 << 63, u64::MAX - 1];
    for v in samples {
        assert_eq!(hex(v), format!("{:X}", v));
    }
}

#[test]
fn decimal_is_signed() {
    assert_eq!(dec(0), "0");
    assert_eq!(dec(7), "7");
    assert_eq!(dec(10), "10");
    assert_eq!(dec(-1), "-1");
    assert_eq!(dec(-10), "-10");
    assert_eq!(dec(1234), "1234");
    assert_eq!(dec(i32::MAX), "2147483647");
    assert_eq!(dec(i32::MIN), "-2147483648");
}

#[test]
fn decimal_agrees_with_the_formatter() {
    let samples = [0i32, 1, -1, 9, 10, 99, 100, -100, 65535, -65536, i32::MAX, i32::MIN];
    for v in samples {
        assert_eq!(dec(v), format!("{}", v));
    }
}

#[test]
fn rendering_appends() {
    let mut s = String::from("0x");
    push_upper_hex(&mut s, 0xc0ffee);
    s.push(' ');
    push_decimal_nat(&mut s, 1_000_000_007);
    s.push(' ');
    push_decimal(&mut s, -5);
    assert_eq!(s, "0xC0FFEE 1000000007 -5");
}

#[test]
fn unsigned_decimal_at_its_limit() {
    let mut s = String::new();
    push_decimal_nat(&mut s, u64::MAX);
    assert_eq!(s, "18446744073709551615");
}

#[test]
fn messages() {
    assert_eq!(pause_failure_text(), "Unable to pause vm");
    assert_eq!(resume_failure_text(), "Unable to resume vm");
    assert_eq!(offset_failure_text("win_pid"), "Unable to get offset \"win_pid\" from config");
    assert_eq!(
        translate_failure_text("PsActiveProcessHead"),
        "Unable to translate kernel symbol \"PsActiveProcessHead\" to va"
    );
    assert_eq!(
        read_va_failure_text(Datum::Text, 0xdeadbeef, -1),
        "Unable to read string from address 0xDEADBEEF for PID -1"
    );
    assert_eq!(
        read_va_failure_text(Datum::Addr, 1, 2),
        "Unable to read addr from address 0x1 for PID 2"
    );
    assert_eq!(
        read_ksym_failure_text(Datum::Text, "linux_banner"),
        "Unable to read string from symbol linux_banner"
    );
    assert_eq!(
        teardown_resume_failure_text(),
        "Error while dropping VMI handle: Unable to resume vm"
    );
    assert_eq!(teardown_destroy_failure_text(), "Unable to destroy handle before dropping");
}

#[test]
fn datum_words() {
    assert_eq!(Datum::Addr.word(), "addr");
    assert_eq!(Datum::U32.word(), "u32");
    assert_eq!(Datum::U64.word(), "u64");
    assert_eq!(Datum::Text.word(), "string");
}

#[test]
fn names_with_a_null_byte_have_no_c_form() {
    assert!(is_c_name("test-vm"));
    assert!(is_c_name(""));
    assert!(is_c_name("gäst"));
    assert!(!is_c_name("\0"));
    assert!(!is_c_name("test\0vm"));
    assert!(!is_c_name("test-vm\0"));
    assert_eq!(c_string("test\0vm"), None);
    assert_eq!(c_string("\0test"), None);
}

#[test]
fn c_form_ends_in_one_null_byte() {
    assert_eq!(c_string("init_task"), Some(b"init_task\0".to_vec()));
    assert_eq!(c_string(""), Some(vec![0]));
    assert_eq!(c_string("é"), Some(vec![0xc3, 0xa9, 0]));
}

#[test]
fn status_of_failure() {
    assert!(is_failure(VMI_FAILURE));
    assert!(!is_failure(VMI_SUCCESS));
    assert!(!is_failure(2));
    assert_eq!(VMI_SUCCESS, 0);
    assert_eq!(VMI_FAILURE, 1);
}

#[test]
fn lossy_decoding() {
    assert_eq!(decode_lossy(b"hello"), "hello");
    assert_eq!(decode_lossy(&[]), "");
    assert_eq!(decode_lossy("žluťoučký".as_bytes()), "žluťoučký");
    assert_eq!(decode_lossy(&[0x80]), "\u{fffd}");
    assert_eq!(decode_lossy(&[b'o', b'k', 0xc3]), "ok\u{fffd}");
    assert_eq!(decode_lossy(&[0xf0, 0x9f, 0xa6, 0x80]), "🦀");
}
