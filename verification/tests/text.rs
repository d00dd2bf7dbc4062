use xcb_errors::error::GenericError;
use xcb_errors::text::decimal_text;

#[test]
fn decimal_of_one_digit() {
    assert_eq!(decimal_text(0), "0");
    assert_eq!(decimal_text(7), "7");
    assert_eq!(decimal_text(9), "9");
}

#[test]
fn decimal_of_two_digits() {
    assert_eq!(decimal_text(10), "10");
    assert_eq!(decimal_text(42), "42");
    assert_eq!(decimal_text(99), "99");
}

#[test]
fn decimal_of_three_digits() {
    assert_eq!(decimal_text(100), "100");
    assert_eq!(decimal_text(109), "109");
    assert_eq!(decimal_text(205), "205");
    assert_eq!(decimal_text(255), "255");
}

#[test]
fn decimal_agrees_with_the_standard_rendering_for_every_byte() {
    let mut n: u8 = 0;
    loop {
        assert_eq!(decimal_text(n), format!("{}", n));
        if n == u8::MAX {
            break;
        }
        n += 1;
    }
}

#[test]
fn error_text_names_response_type_and_error_code() {
    let e = GenericError { response_type: 0, error_code: 3, major_code: 12, minor_code: 0 };
    assert_eq!(e.to_text(), "xcb::Error { response_type: 0, error_code: 3 }");
}

#[test]
fn error_text_leaves_the_opcodes_out() {
    let a = GenericError { response_type: 0, error_code: 17, major_code: 1, minor_code: 2 };
    let b = GenericError { response_type: 0, error_code: 17, major_code: 200, minor_code: 40000 };
    assert_eq!(a.to_text(), b.to_text());
    assert_eq!(a.to_text(), "xcb::Error { response_type: 0, error_code: 17 }");
}

#[test]
fn error_text_with_the_largest_codes() {
    let e = GenericError { response_type: 255, error_code: 255, major_code: 255, minor_code: 65535 };
    assert_eq!(e.to_text(), "xcb::Error { response_type: 255, error_code: 255 }");
}
