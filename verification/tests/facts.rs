use xcap::XCapError;
use xcap::get_os_major_version;
use xcap::parse_os_major_version;
use xcap::wide_string_to_string;

#[test]
fn wide_string_stops_at_the_first_null() {
    let units: Vec<u16> = "major".encode_utf16().chain([0, 0x39]).collect();
    assert_eq!(wide_string_to_string(&units).unwrap(), "major");
}

#[test]
fn wide_string_without_null_decodes_whole() {
    let units: Vec<u16> = "10 (20348)".encode_utf16().collect();
    assert_eq!(wide_string_to_string(&units).unwrap(), "10 (20348)");
}

#[test]
fn wide_string_decodes_beyond_ascii() {
    let units: Vec<u16> = "fenêtre 窗".encode_utf16().collect();
    assert_eq!(wide_string_to_string(&units).unwrap(), "fenêtre 窗");
}

#[test]
fn wide_string_rejects_unpaired_surrogate() {
    let units: Vec<u16> = vec![0xD800, 0x0041];
    assert_eq!(wide_string_to_string(&units), Err(XCapError::InvalidUtf16));
}

#[test]
fn wide_string_ignores_garbage_after_the_null() {
    let units: Vec<u16> = vec![0x41, 0, 0xD800];
    assert_eq!(wide_string_to_string(&units).unwrap(), "A");
}

#[test]
fn wide_string_decodes_surrogate_pairs() {
    let units: Vec<u16> = "𝄞".encode_utf16().collect();
    assert_eq!(units.len(), 2);
    assert_eq!(wide_string_to_string(&units).unwrap(), "𝄞");
}

#[test]
fn empty_wide_string_is_empty() {
    let units: Vec<u16> = vec![0];
    assert_eq!(wide_string_to_string(&units).unwrap(), "");
}

#[test]
fn major_version_is_the_first_token() {
    assert_eq!(parse_os_major_version("10 (20348)"), 10);
    assert_eq!(parse_os_major_version("8"), 8);
    assert_eq!(parse_os_major_version("255 rest"), 255);
}

#[test]
fn major_version_parse_failures_yield_zero() {
    assert_eq!(parse_os_major_version(""), 0);
    assert_eq!(parse_os_major_version("24.04"), 0);
    assert_eq!(parse_os_major_version("300"), 0);
    assert_eq!(parse_os_major_version(" 10"), 0);
    assert_eq!(parse_os_major_version("-3"), 0);
    assert_eq!(parse_os_major_version("abc def"), 0);
}

#[test]
fn major_version_accepts_sign_and_leading_zeros() {
    assert_eq!(parse_os_major_version("+8"), 8);
    assert_eq!(parse_os_major_version("0008"), 8);
    assert_eq!(parse_os_major_version("+"), 0);
}

#[test]
fn os_major_version_query_answers() {
    // The value depends on the machine; the call must simply answer.
    let _ = get_os_major_version();
}
