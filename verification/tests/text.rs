use posix_conformance::text::{dec_bytes, hex_bytes, write_banner};

fn s(v: Vec<u8>) -> String {
    String::from_utf8(v).unwrap()
}

#[test]
fn hex_is_zero_padded() {
    assert_eq!(s(hex_bytes(0)), "0x0000000000000000");
    assert_eq!(s(hex_bytes(0xDEAD_BEEF)), "0x00000000deadbeef");
    assert_eq!(s(hex_bytes(u64::MAX)), "0xffffffffffffffff");
}

#[test]
fn hex_round_trips() {
    for n in [1u64, 0x1234_5678_9ABC_DEF0, 0x8000_0000_0000_0000, 42] {
        let text = s(hex_bytes(n));
        assert_eq!(text.len(), 18);
        assert_eq!(u64::from_str_radix(&text[2..], 16).unwrap(), n);
    }
}

#[test]
fn decimal_values() {
    assert_eq!(s(dec_bytes(0)), "0");
    assert_eq!(s(dec_bytes(7)), "7");
    assert_eq!(s(dec_bytes(-22)), "-22");
    assert_eq!(s(dec_bytes(1234567890)), "1234567890");
    assert_eq!(s(dec_bytes(i64::MAX)), "9223372036854775807");
}

#[test]
fn decimal_of_min_value() {
    assert_eq!(s(dec_bytes(i64::MIN)), "-9223372036854775808");
}

#[test]
fn decimal_round_trips() {
    for n in [-1i64, 10, 99, 100, -4096, 65535] {
        assert_eq!(s(dec_bytes(n)).parse::<i64>().unwrap(), n);
    }
}

#[test]
fn banner_for_short_message() {
    let msg = "SIGNAL TESTS";
    let out = s(write_banner(msg));
    let pad = " ".repeat(24);
    let expected = format!(
        "\n╔{bar}╗\n║{pad}{msg}{pad}║\n╚{bar}╝\n",
        bar = "═".repeat(60),
        pad = pad,
        msg = msg
    );
    assert_eq!(out, expected);
}

#[test]
fn banner_odd_padding_goes_right() {
    let msg = "FORK/EXEC/WAIT TESTS (PSE52)";
    let out = s(write_banner(msg));
    let expected = format!(
        "\n╔{bar}╗\n║{l}{msg}{r}║\n╚{bar}╝\n",
        bar = "═".repeat(60),
        l = " ".repeat(16),
        r = " ".repeat(16),
        msg = msg
    );
    assert_eq!(out, expected);
    let out = s(write_banner("ABC"));
    let middle = out.lines().nth(2).unwrap();
    assert_eq!(middle, format!("║{}ABC{}║", " ".repeat(28), " ".repeat(29)));
}

#[test]
fn banner_grows_for_long_message() {
    let msg = "X".repeat(70);
    let out = s(write_banner(&msg));
    let expected = format!(
        "\n╔{bar}╗\n║  {msg}  ║\n╚{bar}╝\n",
        bar = "═".repeat(74),
        msg = msg
    );
    assert_eq!(out, expected);
}
