//! Rendering of numbers and fixed text into the bytes that the suite writes
//! to standard output.

use vstd::prelude::*;
use vstd::string::StringSliceAdditionalSpecFns;

verus! {

/// `0`
pub const ASCII_ZERO: u8 = 48;

/// `a`
pub const ASCII_LOWER_A: u8 = 97;

/// `x`
pub const ASCII_LOWER_X: u8 = 120;

/// `-`
pub const ASCII_MINUS: u8 = 45;

/// The ASCII digit for a value below 16: `0`-`9`, then `a`-`f`.
pub open spec fn hex_digit(d: int) -> u8 {
    if d < 10 {
        (48 + d) as u8
    } else {
        (97 + d - 10) as u8
    }
}

/// The ASCII digit for a value below 10.
pub open spec fn dec_digit(d: int) -> u8 {
    (48 + d) as u8
}

/// The low `k` hexadecimal digits of `n`, most significant first.
pub open spec fn hex_digits(n: nat, k: nat) -> Seq<u8>
    decreases k,
{
    if k == 0 {
        Seq::empty()
    } else {
        hex_digits(n / 16, (k - 1) as nat).push(hex_digit((n % 16) as int))
    }
}

/// The decimal digits of `n`, most significant first, with no leading zero
/// (`0` is the single digit `0`).
pub open spec fn dec_digits(n: nat) -> Seq<u8>
    decreases n,
{
    if n < 10 {
        seq![dec_digit(n as int)]
    } else {
        dec_digits(n / 10).push(dec_digit((n % 10) as int))
    }
}

/// `0x` followed by exactly sixteen lowercase hexadecimal digits of `n`.
pub open spec fn hex_text(n: u64) -> Seq<u8> {
    seq![48u8, 120u8] + hex_digits(n as nat, 16)
}

/// The absolute value of `n` as a natural number.
pub open spec fn magnitude(n: i64) -> nat {
    if n < 0 {
        (-(n as int)) as nat
    } else {
        n as nat
    }
}

/// Decimal text of `n`: a `-` in front of negative values, then the digits of
/// its absolute value.
pub open spec fn dec_text(n: i64) -> Seq<u8> {
    if n < 0 {
        seq![45u8] + dec_digits(magnitude(n))
    } else {
        dec_digits(n as nat)
    }
}

/// The number that a string of hexadecimal digits (as `hex_digit` writes them)
/// stands for.
pub open spec fn hex_value(s: Seq<u8>) -> nat
    decreases s.len(),
{
    if s.len() == 0 {
        0
    } else {
        hex_value(s.drop_last()) * 16 + digit_value(s.last())
    }
}

/// The number that a string of decimal digits stands for.
pub open spec fn dec_value(s: Seq<u8>) -> nat
    decreases s.len(),
{
    if s.len() == 0 {
        0
    } else {
        dec_value(s.drop_last()) * 10 + digit_value(s.last())
    }
}

/// The value of one ASCII digit (`0`-`9`, `a`-`f`).
pub open spec fn digit_value(c: u8) -> nat {
    if 48 <= c && c <= 57 {
        (c - 48) as nat
    } else if 97 <= c && c <= 102 {
        (c - 97 + 10) as nat
    } else {
        0
    }
}

/// Appends the bytes of `s` to `out`.
pub fn push_bytes(out: &mut Vec<u8>, s: &[u8])
    ensures
        final(out)@ == old(out)@ + s@,
{
    let mut i: usize = 0;
    while i < s.len()
        invariant
            i <= s@.len(),
            out@ == old(out)@ + s@.subrange(0, i as int),
        decreases s@.len() - i,
    {
        out.push(s[i]);
        i = i + 1;
        assert(s@.subrange(0, i as int) == s@.subrange(0, i - 1 as int).push(s@[i - 1]));
    }
    assert(s@.subrange(0, s@.len() as int) == s@);
}

/// Appends the `k` low hexadecimal digits of `n`, most significant first.
fn push_hex_digits(out: &mut Vec<u8>, n: u64, k: u32)
    requires
        k <= 16,
    ensures
        final(out)@ == old(out)@ + hex_digits(n as nat, k as nat),
    decreases k,
{
    if k > 0 {
        let low = n & 0xF;
        let rest = n >> 4;
        assert(low == n % 16 && rest == n / 16) by (bit_vector)
            requires
                low == n & 0xF,
                rest == n >> 4,
        ;
        push_hex_digits(out, rest, k - 1);
        let digit: u8 = if low < 10 {
            ASCII_ZERO + low as u8
        } else {
            ASCII_LOWER_A + (low as u8 - 10)
        };
        out.push(digit);
    }
}

/// Appends the decimal digits of `n`, most significant first.
fn push_dec_digits(out: &mut Vec<u8>, n: u64)
    ensures
        final(out)@ == old(out)@ + dec_digits(n as nat),
    decreases n,
{
    if n >= 10 {
        push_dec_digits(out, n / 10);
    }
    out.push(ASCII_ZERO + (n % 10) as u8);
}

/// Hexadecimal rendering of `n` as the suite prints raw values: `0x` and
/// sixteen digits, zero-padded.
pub fn hex_bytes(n: u64) -> (r: Vec<u8>)
    ensures
        r@ == hex_text(n),
        r@.len() == 18,
{
    let mut r: Vec<u8> = Vec::new();
    r.push(ASCII_ZERO);
    r.push(ASCII_LOWER_X);
    push_hex_digits(&mut r, n, 16);
    proof {
        lemma_hex_digits_len(n as nat, 16);
    }
    r
}

/// Decimal rendering of `n`, with a leading `-` for negative values;
/// `i64::MIN` included.
pub fn dec_bytes(n: i64) -> (r: Vec<u8>)
    ensures
        r@ == dec_text(n),
{
    let mut r: Vec<u8> = Vec::new();
    if n < 0 {
        r.push(ASCII_MINUS);
        let mag: u64 = if n == i64::MIN {
            9223372036854775808u64
        } else {
            (-n) as u64
        };
        push_dec_digits(&mut r, mag);
    } else {
        push_dec_digits(&mut r, n as u64);
    }
    r
}

/// The hexadecimal digit string always has the requested width.
pub proof fn lemma_hex_digits_len(n: nat, k: nat)
    ensures
        hex_digits(n, k).len() == k,
    decreases k,
{
    if k > 0 {
        lemma_hex_digits_len(n / 16, (k - 1) as nat);
    }
}


/// `16` to the power `k`.
pub open spec fn pow16(k: nat) -> nat
    decreases k,
{
    if k == 0 {
        1
    } else {
        16 * pow16((k - 1) as nat)
    }
}

proof fn lemma_digit_values()
    ensures
        forall|d: int| 0 <= d < 16 ==> #[trigger] digit_value(hex_digit(d)) == d,
        forall|d: int| 0 <= d < 10 ==> #[trigger] digit_value(dec_digit(d)) == d,
{
}

/// Reading back the `k` hexadecimal digits of a number below `16^k` gives the
/// number.
pub proof fn lemma_hex_digits_value(n: nat, k: nat)
    requires
        n < pow16(k),
    ensures
        hex_value(hex_digits(n, k)) == n,
    decreases k,
{
    lemma_digit_values();
    if k > 0 {
        let p = pow16((k - 1) as nat);
        assert(n / 16 < p) by (nonlinear_arith)
            requires
                n < 16 * p,
        ;
        lemma_hex_digits_value(n / 16, (k - 1) as nat);
        let s = hex_digits(n, k);
        assert(s.drop_last() == hex_digits(n / 16, (k - 1) as nat));
        assert(n == (n / 16) * 16 + n % 16) by (nonlinear_arith);
    } else {
        assert(n == 0);
    }
}

/// Law: the sixteen digits after `0x` in `hex_text(n)` read back as `n`.
pub proof fn lemma_hex_text_round_trip(n: u64)
    ensures
        hex_text(n).len() == 18,
        hex_text(n).subrange(0, 2) == seq![48u8, 120u8],
        hex_value(hex_text(n).subrange(2, 18)) == n,
{
    lemma_hex_digits_len(n as nat, 16);
    assert(pow16(16) == 0x1_0000_0000_0000_0000) by {
        reveal_with_fuel(pow16, 17);
    }
    lemma_hex_digits_value(n as nat, 16);
    assert(hex_text(n).subrange(2, 18) == hex_digits(n as nat, 16));
    assert(hex_text(n).subrange(0, 2) == seq![48u8, 120u8]);
}

/// Law: the decimal digits of `n` read back as `n`, and only zero is written
/// with a leading `0`.
pub proof fn lemma_dec_digits_round_trip(n: nat)
    ensures
        dec_value(dec_digits(n)) == n,
        dec_digits(n).len() >= 1,
        n > 0 ==> dec_digits(n)[0] != 48u8,
    decreases n,
{
    lemma_digit_values();
    if n >= 10 {
        lemma_dec_digits_round_trip(n / 10);
        assert(dec_digits(n).drop_last() == dec_digits(n / 10));
        assert(dec_digits(n)[0] == dec_digits(n / 10)[0]);
        assert(n == (n / 10) * 10 + n % 10) by (nonlinear_arith);
    } else {
        let s = dec_digits(n);
        assert(s.drop_last() == Seq::<u8>::empty());
        assert(dec_value(Seq::<u8>::empty()) == 0);
    }
}


/// `s` written `n` times in a row.
pub open spec fn repeat(s: Seq<u8>, n: nat) -> Seq<u8>
    decreases n,
{
    if n == 0 {
        Seq::empty()
    } else {
        repeat(s, (n - 1) as nat) + s
    }
}

/// Inner width of a banner around a message of `len` bytes: at least 60, and
/// always room for two blanks on each side.
pub open spec fn banner_width(len: nat) -> nat {
    if len + 4 > 60 {
        len + 4
    } else {
        60
    }
}

/// Blanks to the left of the message.
pub open spec fn banner_left_pad(len: nat) -> nat {
    ((banner_width(len) - len) / 2) as nat
}

/// Blanks to the right of the message.
pub open spec fn banner_right_pad(len: nat) -> nat {
    (banner_width(len) - len - banner_left_pad(len)) as nat
}

/// A three-line box-drawn banner with `msg` centred in its middle line.
pub open spec fn banner_text(msg: Seq<u8>) -> Seq<u8> {
    let inner = banner_width(msg.len());
    "\n╔".spec_bytes() + repeat("═".spec_bytes(), inner) + "╗\n║".spec_bytes() + repeat(
        " ".spec_bytes(),
        banner_left_pad(msg.len()),
    ) + msg + repeat(" ".spec_bytes(), banner_right_pad(msg.len())) + "║\n╚".spec_bytes()
        + repeat("═".spec_bytes(), inner) + "╝\n".spec_bytes()
}

/// Appends `s` to `out` `n` times.
fn push_repeated(out: &mut Vec<u8>, s: &[u8], n: usize)
    ensures
        final(out)@ == old(out)@ + repeat(s@, n as nat),
{
    let mut k: usize = 0;
    while k < n
        invariant
            k <= n,
            out@ == old(out)@ + repeat(s@, k as nat),
        decreases n - k,
    {
        push_bytes(out, s);
        k = k + 1;
    }
}

/// The banner that opens a group of tests: `msg` centred in a box whose
/// inner width is `max(60, msg.len() + 4)`.
pub fn write_banner(msg: &str) -> (out: Vec<u8>)
    requires
        msg.spec_bytes().len() + 4 <= usize::MAX,
    ensures
        out@ == banner_text(msg.spec_bytes()),
{
    let min_width: usize = 60;
    let len = msg.len();
    let inner = if len + 4 > min_width {
        len + 4
    } else {
        min_width
    };
    let pad_total = inner - len;
    let pad_left = pad_total / 2;
    let pad_right = pad_total - pad_left;
    let mut out: Vec<u8> = Vec::new();
    push_bytes(&mut out, "\n╔".as_bytes());
    push_repeated(&mut out, "═".as_bytes(), inner);
    push_bytes(&mut out, "╗\n║".as_bytes());
    push_repeated(&mut out, " ".as_bytes(), pad_left);
    push_bytes(&mut out, msg.as_bytes());
    push_repeated(&mut out, " ".as_bytes(), pad_right);
    push_bytes(&mut out, "║\n╚".as_bytes());
    push_repeated(&mut out, "═".as_bytes(), inner);
    push_bytes(&mut out, "╝\n".as_bytes());
    out
}

/// Law: the message always has at least two blanks on each side, the two
/// sides differ by at most one blank, and blanks plus message fill the inner
/// width, which is never below 60.
pub proof fn lemma_banner_centred(len: nat)
    ensures
        banner_left_pad(len) >= 2,
        banner_right_pad(len) >= 2,
        banner_left_pad(len) <= banner_right_pad(len) <= banner_left_pad(len) + 1,
        banner_left_pad(len) + len + banner_right_pad(len) == banner_width(len),
        banner_width(len) >= 60,
{
}

/// Law: decimal digits are the ASCII characters `0` to `9`, hexadecimal
/// digits `0` to `9` then lowercase `a` to `f`, each standing for its value.
pub proof fn lemma_digit_characters(d: int)
    requires
        0 <= d < 16,
    ensures
        d < 10 ==> dec_digit(d) == 48 + d && hex_digit(d) == 48 + d,
        d >= 10 ==> hex_digit(d) == 97 + (d - 10),
        digit_value(hex_digit(d)) == d,
        d < 10 ==> digit_value(dec_digit(d)) == d,
{
}

/// Law: every byte of a decimal rendering is an ASCII digit.
pub proof fn lemma_dec_digits_ascii(n: nat)
    ensures
        forall|i: int| 0 <= i < dec_digits(n).len() ==> 48 <= #[trigger] dec_digits(n)[i] <= 57,
    decreases n,
{
    if n >= 10 {
        lemma_dec_digits_ascii(n / 10);
        let s = dec_digits(n);
        assert(s.drop_last() == dec_digits(n / 10));
        assert forall|i: int| 0 <= i < s.len() implies 48 <= #[trigger] s[i] <= 57 by {
            if i < s.len() - 1 {
                assert(s[i] == s.drop_last()[i]);
            }
        }
    }
}

/// Law: a decimal rendering starts with `-` exactly when the number is
/// negative; after it come the digits of the magnitude, with no leading zero
/// unless the number is 0.
pub proof fn lemma_dec_text_sign(n: i64)
    ensures
        dec_text(n).len() >= 1,
        (dec_text(n)[0] == 45u8) <==> n < 0,
        n < 0 ==> dec_text(n) == seq![45u8] + dec_digits(magnitude(n)),
        n >= 0 ==> dec_text(n) == dec_digits(n as nat),
        magnitude(n) == (if n < 0 { -(n as int) } else { n as int }),
{
    lemma_dec_digits_ascii(magnitude(n));
    lemma_dec_digits_round_trip(magnitude(n));
    if n >= 0 {
        assert(48 <= dec_digits(n as nat)[0] <= 57);
    }
}

/// Law: the banner is three lines: a top border of `╔`, `w` times `═` and
/// `╗`; a middle line of `║`, the blanks to the left, the message, the blanks
/// to the right and `║`; and a bottom border of `╚`, `w` times `═` and `╝`,
/// where `w` is 60 or the message length plus 4, whichever is larger, the
/// left blanks are half the room left (rounded down) and the right ones the
/// rest.
pub proof fn lemma_banner_lines(msg: Seq<u8>)
    ensures
        ({
            let w: nat = if msg.len() + 4 > 60 { (msg.len() + 4) as nat } else { 60 };
            let l: nat = ((w - msg.len()) / 2) as nat;
            let r: nat = (w - msg.len() - l) as nat;
            banner_text(msg) == "\n╔".spec_bytes() + repeat("═".spec_bytes(), w) + "╗\n║".spec_bytes()
                + repeat(" ".spec_bytes(), l) + msg + repeat(" ".spec_bytes(), r)
                + "║\n╚".spec_bytes() + repeat("═".spec_bytes(), w) + "╝\n".spec_bytes()
        }),
{
}

/// Law: `s` repeated `n` times is `n` copies of `s`, one after another.
pub proof fn lemma_repeat_copies(s: Seq<u8>, n: nat)
    ensures
        repeat(s, n).len() == n * s.len(),
        forall|k: int, i: int| 0 <= k < n && 0 <= i < s.len() ==> #[trigger] repeat(s, n)[k * s.len() + i]
            == s[i],
    decreases n,
{
    if n > 0 {
        lemma_repeat_copies(s, (n - 1) as nat);
        let prev = repeat(s, (n - 1) as nat);
        assert(repeat(s, n) == prev + s);
        assert(prev.len() == (n - 1) * s.len());
        assert((n - 1) * s.len() + s.len() == n * s.len()) by (nonlinear_arith);
        assert forall|k: int, i: int| 0 <= k < n && 0 <= i < s.len() implies #[trigger] repeat(s, n)[k
            * s.len() + i] == s[i] by {
            if k < n - 1 {
                assert(k * s.len() + i < (n - 1) * s.len()) by (nonlinear_arith)
                    requires
                        0 <= k < n - 1,
                        0 <= i < s.len(),
                ;
                assert(repeat(s, n)[k * s.len() + i] == prev[k * s.len() + i]);
            } else {
                assert(k * s.len() == (n - 1) * s.len());
            }
        }
    } else {
        assert(0 * s.len() == 0) by (nonlinear_arith);
    }
}

} // verus!
