use posix_conformance::dirent::records_fit_checked;
use posix_conformance::dirent::{bytes_equal, contains_name, parse_dirents};

fn record(buf: &mut Vec<u8>, name: &[u8], reclen: usize) {
    let start = buf.len();
    buf.extend_from_slice(&7u64.to_le_bytes());
    buf.extend_from_slice(&0i64.to_le_bytes());
    buf.extend_from_slice(&(reclen as u16).to_le_bytes());
    buf.push(4);
    buf.extend_from_slice(name);
    buf.push(0);
    while buf.len() < start + reclen {
        buf.push(0);
    }
}

#[test]
fn parses_dot_entries_and_files() {
    let mut buf = Vec::new();
    record(&mut buf, b".", 24);
    record(&mut buf, b"..", 24);
    record(&mut buf, b"alpha", 32);
    record(&mut buf, b"beta", 24);
    let nread = buf.len();
    buf.resize(1024, 0);
    let names = parse_dirents(&buf, nread);
    assert_eq!(names, vec![b".".to_vec(), b"..".to_vec(), b"alpha".to_vec(), b"beta".to_vec()]);
    assert!(contains_name(&names, b"."));
    assert!(contains_name(&names, b".."));
    assert!(contains_name(&names, b"alpha"));
    assert!(contains_name(&names, b"beta"));
    assert!(!contains_name(&names, b"gamma"));
    assert!(names.len() >= 4);
}

#[test]
fn zero_reclen_ends_listing() {
    let mut buf = Vec::new();
    record(&mut buf, b"first", 32);
    buf.extend_from_slice(&[0u8; 24]);
    let nread = buf.len();
    let names = parse_dirents(&buf, nread);
    assert_eq!(names, vec![b"first".to_vec()]);
}

#[test]
fn name_without_nul_fills_record() {
    let mut buf = Vec::new();
    buf.extend_from_slice(&1u64.to_le_bytes());
    buf.extend_from_slice(&0i64.to_le_bytes());
    buf.extend_from_slice(&(24u16).to_le_bytes());
    buf.push(8);
    buf.extend_from_slice(b"abcde");
    let names = parse_dirents(&buf, 24);
    assert_eq!(names, vec![b"abcde".to_vec()]);
}

#[test]
fn empty_listing() {
    let buf = [0u8; 64];
    assert!(parse_dirents(&buf, 0).is_empty());
}

#[test]
fn byte_equality() {
    assert!(bytes_equal(b"..", b".."));
    assert!(!bytes_equal(b".", b".."));
    assert!(!bytes_equal(b"ab", b"ac"));
    assert!(bytes_equal(b"", b""));
}

#[test]
fn fit_check_accepts_kernel_layout() {
    let mut buf = Vec::new();
    record(&mut buf, b".", 24);
    record(&mut buf, b"x", 24);
    let n = buf.len();
    assert!(records_fit_checked(&buf, n));
    assert!(records_fit_checked(&buf, 0));
}

#[test]
fn fit_check_rejects_short_or_overlong_records() {
    let mut buf = Vec::new();
    record(&mut buf, b"a", 24);
    let n = buf.len();
    let mut short = buf.clone();
    short[16] = 10;
    assert!(!records_fit_checked(&short, n));
    let mut long = buf.clone();
    long[16] = 200;
    assert!(!records_fit_checked(&long, n));
    assert!(!records_fit_checked(&buf[..10], 10));
}
