//! Hexadecimal decoding of JSON-RPC quantity strings.
//!
//! The node reports quantities as hexadecimal strings, usually with a `0x`
//! prefix. Decoding strips one optional `0x` prefix, accepts an optional
//! leading plus sign (as the standard library's radix parsers do), and then
//! reads base-16 digits of either case. Any malformed input, and any value
//! that does not fit the target width, decodes to zero rather than to an
//! error: the probe treats unreadable quantities as absent.

use vstd::prelude::*;

verus! {

/// True when `c` is an ASCII hexadecimal digit of either case.
pub open spec fn is_hex_digit(c: char) -> bool {
    ('0' as int <= c as int && c as int <= '9' as int)
    || ('a' as int <= c as int && c as int <= 'f' as int)
    || ('A' as int <= c as int && c as int <= 'F' as int)
}

/// The numeric value of a hexadecimal digit; zero for any other character.
pub open spec fn hex_digit_value(c: char) -> nat {
    if '0' as int <= c as int && c as int <= '9' as int {
        (c as int - '0' as int) as nat
    } else if 'a' as int <= c as int && c as int <= 'f' as int {
        (c as int - 'a' as int + 10) as nat
    } else if 'A' as int <= c as int && c as int <= 'F' as int {
        (c as int - 'A' as int + 10) as nat
    } else {
        0
    }
}

/// True when every character of `s` is a hexadecimal digit.
pub open spec fn all_hex_digits(s: Seq<char>) -> bool {
    forall|i: int| 0 <= i < s.len() ==> is_hex_digit(#[trigger] s[i])
}

/// The unbounded value of a digit string read in base 16, most significant
/// digit first.
pub open spec fn hex_value(s: Seq<char>) -> nat
    decreases s.len(),
{
    if s.len() == 0 {
        0
    } else {
        hex_value(s.drop_last()) * 16 + hex_digit_value(s.last())
    }
}

/// `s` with one leading `0x` removed, if it has one.
pub open spec fn strip_hex_prefix(s: Seq<char>) -> Seq<char> {
    if s.len() >= 2 && s[0] == '0' && s[1] == 'x' {
        s.subrange(2, s.len() as int)
    } else {
        s
    }
}

/// `s` with one leading plus sign removed, if it has one.
pub open spec fn strip_plus(s: Seq<char>) -> Seq<char> {
    if s.len() >= 1 && s[0] == '+' {
        s.subrange(1, s.len() as int)
    } else {
        s
    }
}

/// The digit portion of a quantity string: what remains after the optional
/// `0x` prefix and then an optional plus sign are stripped.
pub open spec fn hex_digits_of(s: Seq<char>) -> Seq<char> {
    strip_plus(strip_hex_prefix(s))
}

/// True when `s` is a well-formed hexadecimal quantity: after stripping, at
/// least one digit remains and nothing else does.
pub open spec fn is_valid_hex(s: Seq<char>) -> bool {
    hex_digits_of(s).len() > 0 && all_hex_digits(hex_digits_of(s))
}

/// The unbounded value a well-formed quantity string denotes.
pub open spec fn hex_decoded(s: Seq<char>) -> nat {
    hex_value(hex_digits_of(s))
}

/// What decoding yields on any input: the denoted value when `s` is
/// well formed and the value fits below `max`, and zero otherwise.
pub open spec fn hex_or_zero(s: Seq<char>, max: nat) -> nat {
    if is_valid_hex(s) && hex_decoded(s) <= max {
        hex_decoded(s)
    } else {
        0
    }
}

/// Extending a digit string can only increase its value: the value of the
/// whole string is at least the value of any prefix.
proof fn lemma_hex_value_prefix_le(s: Seq<char>, i: int)
    requires
        0 <= i <= s.len(),
    ensures
        hex_value(s.take(i)) <= hex_value(s),
    decreases s.len() - i,
{
    if i == s.len() {
        assert(s.take(i) =~= s);
    } else {
        assert(s.take(i + 1).drop_last() =~= s.take(i));
        assert(s.take(i + 1).last() == s[i]);
        assert(hex_value(s.take(i + 1))
            == hex_value(s.take(i)) * 16 + hex_digit_value(s[i]));
        assert(hex_value(s.take(i)) * 16 >= hex_value(s.take(i)) * 1);
        lemma_hex_value_prefix_le(s, i + 1);
    }
}

/// The numeric value of one hexadecimal digit, or `None` for any other
/// character.
fn hex_digit_val(c: char) -> (r: Option<u8>)
    ensures
        match r {
            Some(v) => is_hex_digit(c) && v as nat == hex_digit_value(c) && v < 16,
            None => !is_hex_digit(c),
        },
{
    let u = c as u32;
    if 48 <= u && u <= 57 {
        Some((u - 48) as u8)
    } else if 97 <= u && u <= 102 {
        Some((u - 97 + 10) as u8)
    } else if 65 <= u && u <= 70 {
        Some((u - 65 + 10) as u8)
    } else {
        None
    }
}

/// Decodes the whole of `h` as a hexadecimal quantity into a `u128`.
/// `None` means the string is malformed or its value needs more than 128
/// bits; the callers turn both into zero.
fn hex_core(h: &str) -> (r: Option<u128>)
    ensures
        match r {
            Some(v) => is_valid_hex(h@) && v as nat == hex_decoded(h@),
            None => !is_valid_hex(h@) || hex_decoded(h@) > u128::MAX as nat,
        },
{
    let n = h.unicode_len();
    let after_prefix: usize = if n >= 2 && h.get_char(0) == '0' && h.get_char(1) == 'x' {
        2
    } else {
        0
    };
    let start: usize = if after_prefix < n && h.get_char(after_prefix) == '+' {
        after_prefix + 1
    } else {
        after_prefix
    };
    let ghost digits: Seq<char> = hex_digits_of(h@);
    proof {
        assert(digits =~= h@.subrange(start as int, n as int));
    }
    if start == n {
        return None;
    }
    let mut acc: u128 = 0;
    let mut i: usize = start;
    while i < n
        invariant
            start <= i <= n,
            n as nat == h@.len(),
            digits =~= h@.subrange(start as int, n as int),
            digits == hex_digits_of(h@),
            start < n,
            all_hex_digits(digits.take(i - start)),
            acc as nat == hex_value(digits.take(i - start)),
        decreases n - i,
    {
        let c = h.get_char(i);
        proof {
            assert(digits[i - start] == h@[i as int]);
        }
        match hex_digit_val(c) {
            None => {
                return None;
            },
            Some(d) => {
                proof {
                    assert(digits.take(i - start + 1).drop_last() =~= digits.take(i - start));
                    assert(digits.take(i - start + 1).last() == digits[i - start]);
                }
                if acc > (u128::MAX - d as u128) / 16 {
                    proof {
                        assert(acc * 16 + d as nat > u128::MAX as nat) by (nonlinear_arith)
                            requires
                                acc > (u128::MAX - d as u128) / 16,
                                d < 16,
                        ;
                        lemma_hex_value_prefix_le(digits, i - start + 1);
                    }
                    return None;
                }
                proof {
                    assert(acc * 16 + d as u128 <= u128::MAX) by (nonlinear_arith)
                        requires
                            acc <= (u128::MAX - d as u128) / 16,
                            d < 16,
                    ;
                }
                acc = acc * 16 + d as u128;
            },
        }
        i += 1;
    }
    proof {
        assert(digits.take(n - start) =~= digits);
    }
    Some(acc)
}

/// Decodes a hexadecimal quantity string into a `u64`; malformed input and
/// values that do not fit yield zero.
pub fn hex_to_u64(h: &str) -> (r: u64)
    ensures
        r as nat == hex_or_zero(h@, u64::MAX as nat),
{
    match hex_core(h) {
        Some(v) => {
            if v <= u64::MAX as u128 {
                v as u64
            } else {
                0
            }
        },
        None => 0,
    }
}

/// Decodes a hexadecimal quantity string into a `u128`; malformed input and
/// values that do not fit yield zero.
pub fn hex_to_u128(h: &str) -> (r: u128)
    ensures
        r as nat == hex_or_zero(h@, u128::MAX as nat),
{
    match hex_core(h) {
        Some(v) => v,
        None => 0,
    }
}

/// The literal `"0x0"` decodes to zero under any bound, so a field that
/// defaults to that literal reads as zero.
pub proof fn lemma_hex_0x0(max: nat)
    ensures
        hex_or_zero("0x0"@, max) == 0,
{
    reveal_strlit("0x0");
    let s = "0x0"@;
    let d = hex_digits_of(s);
    assert(d =~= seq!['0']);
    assert(d.drop_last() =~= Seq::<char>::empty());
    assert(hex_value(Seq::<char>::empty()) == 0);
    assert(hex_digit_value('0') == 0);
    assert(hex_value(d) == hex_value(d.drop_last()) * 16 + hex_digit_value(d.last()));
    assert(hex_value(d) == 0);
}

/// Decoding is indifferent to the `0x` prefix: prefixing any string that
/// does not already begin with `0x` leaves the decoded value unchanged.
pub proof fn lemma_hex_prefix_agrees(d: Seq<char>, max: nat)
    requires
        !(d.len() >= 2 && d[0] == '0' && d[1] == 'x'),
    ensures
        hex_or_zero(seq!['0', 'x'] + d, max) == hex_or_zero(d, max),
{
    let p = seq!['0', 'x'] + d;
    assert(p[0] == '0' && p[1] == 'x');
    assert(strip_hex_prefix(p) =~= d);
    assert(strip_hex_prefix(d) =~= d);
}

} // verus!
