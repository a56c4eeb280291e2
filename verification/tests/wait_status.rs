use posix_conformance::wait_status::{wexitstatus, wifexited, wifsignaled, wtermsig};

#[test]
fn exit_42_decodes() {
    let status: i32 = 42 << 8;
    assert!(wifexited(status));
    assert!(!wifsignaled(status));
    assert_eq!(wexitstatus(status), 42);
}

#[test]
fn sigkill_decodes() {
    let status: i32 = 9;
    assert!(wifsignaled(status));
    assert!(!wifexited(status));
    assert_eq!(wtermsig(status), 9);
}

#[test]
fn exit_codes_zero_127_255_decode() {
    for code in [0i32, 127, 255] {
        let status = code << 8;
        assert!(wifexited(status));
        assert!(!wifsignaled(status));
        assert_eq!(wexitstatus(status), code);
    }
}

#[test]
fn stopped_marker_is_neither_exit_nor_signal() {
    let status: i32 = (19 << 8) | 0x7F;
    assert!(!wifexited(status));
    assert!(!wifsignaled(status));
}

#[test]
fn core_dump_flag_keeps_signal() {
    let status: i32 = 11 | 0x80;
    assert!(wifsignaled(status));
    assert!(!wifexited(status));
    assert_eq!(wtermsig(status), 11);
}

#[test]
fn negative_status_masks_like_c() {
    let status: i32 = -1;
    assert_eq!(wtermsig(status), 0x7F);
    assert_eq!(wexitstatus(status), 0xFF);
    assert!(!wifexited(status));
    assert!(!wifsignaled(status));
}
