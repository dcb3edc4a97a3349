use kget::download::{
    check_disk_space, is_iso_target, resolve_tentative_path, simple_retry_decision,
    validate_filename, FilenameError, PathError,
};
use kget::interactive::{parse_command, InteractiveCommand};
use kget::strutil::{
    eq_ignore_ascii_case_str, parse_u64, starts_with_str, str_eq, trim_str, u64_to_hex_string,
    u64_to_string, url_decode,
};

#[test]
fn parse_u64_accepts_digit_strings() {
    assert_eq!(parse_u64("0"), Some(0));
    assert_eq!(parse_u64("1234"), Some(1234));
    assert_eq!(parse_u64("18446744073709551615"), Some(u64::MAX));
}

#[test]
fn parse_u64_rejects_junk_and_overflow() {
    assert_eq!(parse_u64(""), None);
    assert_eq!(parse_u64("12a"), None);
    assert_eq!(parse_u64("-1"), None);
    assert_eq!(parse_u64(" 1"), None);
    assert_eq!(parse_u64("18446744073709551616"), None);
    assert_eq!(parse_u64("99999999999999999999999"), None);
}

#[test]
fn decimal_and_hex_rendering() {
    assert_eq!(u64_to_string(0), "0");
    assert_eq!(u64_to_string(10_000_000), "10000000");
    assert_eq!(u64_to_string(u64::MAX), "18446744073709551615");
    assert_eq!(u64_to_hex_string(0), "0");
    assert_eq!(u64_to_hex_string(255), "ff");
    assert_eq!(u64_to_hex_string(0xdeadbeef), "deadbeef");
}

#[test]
fn case_insensitive_helpers() {
    assert!(eq_ignore_ascii_case_str("ByTeS", "bytes"));
    assert!(!eq_ignore_ascii_case_str("bytes2", "bytes"));
    assert!(str_eq("abc", "abc"));
    assert!(!str_eq("abc", "abd"));
    assert!(starts_with_str("magnet:?xt=abc", "magnet:?"));
    assert!(!starts_with_str("http://x", "magnet:?"));
}

#[test]
fn trimming() {
    assert_eq!(trim_str("  hello \t\r\n"), "hello");
    assert_eq!(trim_str(""), "");
    assert_eq!(trim_str(" \t "), "");
    assert_eq!(trim_str("x"), "x");
}

#[test]
fn percent_decoding() {
    assert_eq!(url_decode("My%20File+v2"), "My File v2");
    assert_eq!(url_decode("abc"), "abc");
    assert_eq!(url_decode("%41%42c"), "ABc");
    // a bad escape keeps the percent sign and moves on
    assert_eq!(url_decode("%zz"), "%zz");
    // a percent sign with nothing after it stays
    assert_eq!(url_decode("a%"), "a%");
}

#[test]
fn filename_validation() {
    assert!(validate_filename("file.bin").is_ok());
    assert_eq!(
        validate_filename("a/b"),
        Err(FilenameError::ContainsSeparator)
    );
    assert_eq!(
        validate_filename("a\\b"),
        Err(FilenameError::ContainsSeparator)
    );
    assert_eq!(validate_filename(""), Err(FilenameError::Empty));
}

#[test]
fn disk_space_decision() {
    assert!(check_disk_space(1000, 1000).is_ok());
    assert!(check_disk_space(1001, 1000).is_ok());
    let err = check_disk_space(100, 500).unwrap_err();
    assert_eq!(
        err,
        "Insufficient disk space. Required: 500 B, Available: 100 B"
    );
}

#[test]
fn iso_detection() {
    assert!(is_iso_target("http://example.com/disk.ISO", None));
    assert!(!is_iso_target("http://example.com/disk.img", None));
    assert!(is_iso_target("http://x/y", Some("application/x-cd-image")));
    assert!(is_iso_target("http://x/y", Some("application/x-iso9001")));
    assert!(!is_iso_target("http://x/y", Some("text/html")));
    assert!(!is_iso_target("http://x/y", Some("not a mime !!")));
    // the essence strips parameters and lower-cases, so these match too
    assert!(is_iso_target(
        "http://x/y",
        Some("application/x-cd-image; charset=utf-8")
    ));
    assert!(is_iso_target("http://x/y", Some("APPLICATION/X-ISO9001")));
}

#[test]
fn simple_retry_schedule() {
    assert_eq!(simple_retry_decision(0), Some(2));
    assert_eq!(simple_retry_decision(2), Some(2));
    assert_eq!(simple_retry_decision(3), None);
}

#[test]
fn output_path_resolution() {
    // no output argument: the URL's file name
    assert_eq!(
        resolve_tentative_path(None, false, "http://h/a/file.bin", "fallback").unwrap(),
        "file.bin"
    );
    // no usable segment: the default
    assert_eq!(
        resolve_tentative_path(None, false, "http://h/", "fallback").unwrap(),
        "fallback"
    );
    // a directory argument gets the file name appended
    assert_eq!(
        resolve_tentative_path(Some("downloads"), true, "http://h/f.bin", "d").unwrap(),
        "downloads/f.bin"
    );
    assert_eq!(
        resolve_tentative_path(Some("downloads/"), false, "http://h/f.bin", "d").unwrap(),
        "downloads/f.bin"
    );
    // a file argument is used as given
    assert_eq!(
        resolve_tentative_path(Some("out/custom.bin"), false, "http://h/f.bin", "d").unwrap(),
        "out/custom.bin"
    );
    // a path ending in a separator-free empty component names no file
    assert_eq!(
        resolve_tentative_path(Some(""), false, "http://h/f.bin", "d"),
        Err(PathError::NoFileName)
    );
}

#[test]
fn interactive_commands() {
    assert_eq!(parse_command(" exit "), InteractiveCommand::Exit);
    assert_eq!(parse_command("quit"), InteractiveCommand::Exit);
    assert_eq!(parse_command("help"), InteractiveCommand::Help);
    assert_eq!(parse_command(""), InteractiveCommand::Empty);
    assert_eq!(parse_command("   "), InteractiveCommand::Empty);
    assert_eq!(
        parse_command("download http://example.com/f out"),
        InteractiveCommand::Download("http://example.com/f out".to_string())
    );
    assert_eq!(
        parse_command("frobnicate"),
        InteractiveCommand::Unknown("frobnicate".to_string())
    );
}
