use errno::{set_errno, Errno};
use libproc::helpers::{
    check_errno, errno_message, get_errno_with_message, parse_memory_string, procfile_field_in,
};

#[test]
fn test_valid_memory_string() {
    assert_eq!(parse_memory_string("220844 kB"), Ok(226144256));
}

#[test]
fn test_valid_memory_string_spaces() {
    assert_eq!(parse_memory_string("  220844 kB  "), Ok(226144256));
}

#[test]
fn test_invalid_memory_string_units() {
    assert!(parse_memory_string("  220844 THz  ").is_err());
}

#[test]
fn test_invalid_memory_string() {
    assert!(parse_memory_string("    ").is_err());
}

#[test]
fn test_invalid_memory_string_empty() {
    assert!(parse_memory_string("gobble dee gook").is_err())
}

#[test]
fn memory_string_units_and_bare_numbers() {
    assert_eq!(parse_memory_string("3 MB"), Ok(3 * 1024 * 1024));
    assert_eq!(parse_memory_string("7 B"), Ok(7));
    assert_eq!(parse_memory_string("42"), Ok(42));
    assert_eq!(parse_memory_string("+42 kB"), Ok(42 * 1024));
    assert_eq!(parse_memory_string("\t 5 kB\n"), Ok(5 * 1024));
}

#[test]
fn memory_string_error_messages() {
    assert_eq!(
        parse_memory_string(" 1 THz"),
        Err("Could not parse units of Memory String:  1 THz".to_string())
    );
    assert_eq!(
        parse_memory_string("x kB"),
        Err("Could not parse value as integer".to_string())
    );
    assert_eq!(
        parse_memory_string("-1 kB"),
        Err("Could not parse value as integer".to_string())
    );
    assert_eq!(
        parse_memory_string("18446744073709551615 kB"),
        Err("Memory String value is too large: 18446744073709551615 kB".to_string())
    );
    assert_eq!(parse_memory_string("18446744073709551615"), Ok(u64::MAX));
    assert!(parse_memory_string("18446744073709551616").is_err());
}

#[test]
fn invalid_utf8() {
    let mut buf: Vec<u8> = vec![255, 0, 0];

    if let Err(msg) = check_errno(buf.len() as i32, &mut buf) {
        assert!(msg.contains(
            "Invalid UTF-8 sequence: invalid utf-8 sequence of 1 bytes from index 0"
        ));
    }
}

#[test]
fn invalid_utf8_is_an_error() {
    let mut buf: Vec<u8> = vec![b'o', b'k', 0xC3];
    let r = check_errno(3, &mut buf);
    assert!(r.unwrap_err().starts_with("Invalid UTF-8 sequence: "));
}

#[test]
fn positive_ret() {
    let message = "custom message";
    let mut buf: Vec<u8> = Vec::from(message.as_bytes());

    if let Ok(msg) = check_errno(buf.len() as i32, &mut buf) {
        assert!(msg.contains(message));
    }
}

#[test]
fn positive_ret_cuts_to_written_bytes() {
    let mut buf: Vec<u8> = Vec::from("/usr/bin/true\0\0\0".as_bytes());
    assert_eq!(check_errno(13, &mut buf), Ok("/usr/bin/true".to_string()));
    assert_eq!(buf.len(), 13);
}

#[test]
fn negative_ret() {
    let mut buf: Vec<u8> = vec![];
    set_errno(Errno(-1));

    if let Err(mes) = check_errno(-1, &mut buf) {
        assert!(mes.contains("return code = -1, errno = -1"));
    }
}

#[test]
fn zero_ret() {
    let mut buf: Vec<u8> = vec![];
    set_errno(Errno(2));

    if let Err(mes) = check_errno(0, &mut buf) {
        assert!(mes.contains("return code = 0, errno = 2"));
    }
}

#[test]
fn unknown_process_path_reports_no_such_file() {
    // reading the executable link of a process that does not exist fails
    // with ENOENT
    let mut buf: Vec<u8> = vec![0; 16];
    set_errno(Errno(libc::ENOENT));
    let r = check_errno(-1, &mut buf);
    let message = r.unwrap_err();
    assert!(message.contains("No such file or directory"));
    assert!(message.starts_with("return code = -1, errno = 2, message = '"));
}

#[test]
fn errno_message_layout() {
    assert_eq!(
        errno_message(-1, 3, "No such process"),
        "return code = -1, errno = 3, message = 'No such process'"
    );
    assert_eq!(
        errno_message(0, -12, ""),
        "return code = 0, errno = -12, message = ''"
    );
}

#[test]
fn errno_with_message_reads_errno() {
    set_errno(Errno(libc::ESRCH));
    let m = get_errno_with_message(-1);
    assert!(m.starts_with("return code = -1, errno = 3, message = '"));
    assert!(m.contains("No such process"));
}

fn lines(text: &str) -> Vec<String> {
    text.lines().map(|l| l.to_string()).collect()
}

#[test]
fn procfile_field_test() {
    let status = lines("Name:\tinit\nUmask:\t0022\nState:\tS (sleeping)\n");
    assert!(procfile_field_in(&status, "/proc/1/status", "invalid").is_err());
}

#[test]
fn procfile_field_finds_first_matching_line() {
    let status = lines("Name:\tcargo test\nVmSize:\t  220844 kB\nVmSize:\t1 kB\nTime: 10:42\n");
    assert_eq!(
        procfile_field_in(&status, "/proc/7/status", "Name"),
        Ok("cargo test".to_string())
    );
    assert_eq!(
        procfile_field_in(&status, "/proc/7/status", "VmSize"),
        Ok("220844 kB".to_string())
    );
    // only the text up to the next ':' is the value
    assert_eq!(
        procfile_field_in(&status, "/proc/7/status", "Time"),
        Ok("10".to_string())
    );
    assert_eq!(
        procfile_field_in(&status, "/proc/7/status", "Vm"),
        Err("Could not find the field named 'Vm' in the /proc FS file name '/proc/7/status'"
            .to_string())
    );
}
