//! Decimal and hexadecimal text for the value runtime.
//!
//! Rendering and parsing of integers is specified exactly: the spec
//! functions below define the digit strings, and the executable
//! functions are proved to produce or recognise exactly those strings.

use vstd::prelude::*;
use vstd::string::StringExecFns;

verus! {

/// The decimal digit character for `d` (`d < 10`).
pub open spec fn dec_digit(d: nat) -> char {
    if d == 0 {
        '0'
    } else if d == 1 {
        '1'
    } else if d == 2 {
        '2'
    } else if d == 3 {
        '3'
    } else if d == 4 {
        '4'
    } else if d == 5 {
        '5'
    } else if d == 6 {
        '6'
    } else if d == 7 {
        '7'
    } else if d == 8 {
        '8'
    } else {
        '9'
    }
}

/// The shortest decimal rendering of `n`, most significant digit first.
pub open spec fn dec_seq(n: nat) -> Seq<char>
    decreases n,
{
    if n < 10 {
        seq![dec_digit(n)]
    } else {
        dec_seq(n / 10).push(dec_digit(n % 10))
    }
}

/// The decimal rendering of a signed integer: a minus sign before the
/// magnitude for negative values, the plain magnitude otherwise.
pub open spec fn signed_dec_seq(i: int) -> Seq<char> {
    if i < 0 {
        seq!['-'] + dec_seq((-i) as nat)
    } else {
        dec_seq(i as nat)
    }
}

/// Exactly `width` decimal digits of `n`, zero padded on the left
/// (only the lowest `width` digits of `n` are rendered).
pub open spec fn padded_dec_seq(n: nat, width: nat) -> Seq<char>
    decreases width,
{
    if width == 0 {
        Seq::<char>::empty()
    } else {
        padded_dec_seq(n / 10, (width - 1) as nat).push(dec_digit(n % 10))
    }
}

/// The lowercase hexadecimal digit character for `d` (`d < 16`).
pub open spec fn hex_digit(d: nat) -> char {
    if d < 10 {
        dec_digit(d)
    } else if d == 10 {
        'a'
    } else if d == 11 {
        'b'
    } else if d == 12 {
        'c'
    } else if d == 13 {
        'd'
    } else if d == 14 {
        'e'
    } else {
        'f'
    }
}

/// Exactly `width` lowercase hexadecimal digits of `n`, zero padded.
pub open spec fn padded_hex_seq(n: nat, width: nat) -> Seq<char>
    decreases width,
{
    if width == 0 {
        Seq::<char>::empty()
    } else {
        padded_hex_seq(n / 16, (width - 1) as nat).push(hex_digit(n % 16))
    }
}

fn dec_digit_str(d: u64) -> (r: &'static str)
    requires
        d < 10,
    ensures
        r@ == seq![dec_digit(d as nat)],
{
    proof {
        reveal_strlit("0");
        reveal_strlit("1");
        reveal_strlit("2");
        reveal_strlit("3");
        reveal_strlit("4");
        reveal_strlit("5");
        reveal_strlit("6");
        reveal_strlit("7");
        reveal_strlit("8");
        reveal_strlit("9");
    }
    let r = match d {
        0 => "0",
        1 => "1",
        2 => "2",
        3 => "3",
        4 => "4",
        5 => "5",
        6 => "6",
        7 => "7",
        8 => "8",
        _ => "9",
    };
    proof {
        assert(r@ =~= seq![dec_digit(d as nat)]);
    }
    r
}

fn hex_digit_str(d: u64) -> (r: &'static str)
    requires
        d < 16,
    ensures
        r@ == seq![hex_digit(d as nat)],
{
    if d < 10 {
        dec_digit_str(d)
    } else {
        proof {
            reveal_strlit("a");
            reveal_strlit("b");
            reveal_strlit("c");
            reveal_strlit("d");
            reveal_strlit("e");
            reveal_strlit("f");
        }
        let r = match d {
            10 => "a",
            11 => "b",
            12 => "c",
            13 => "d",
            14 => "e",
            _ => "f",
        };
        proof {
            assert(r@ =~= seq![hex_digit(d as nat)]);
        }
        r
    }
}

/// Renders `n` in decimal.
pub fn u64_to_dec_string(n: u64) -> (r: String)
    ensures
        r@ == dec_seq(n as nat),
    decreases n,
{
    if n < 10 {
        String::from_str(dec_digit_str(n))
    } else {
        let mut s = u64_to_dec_string(n / 10);
        s.append(dec_digit_str(n % 10));
        proof {
            assert(s@ =~= dec_seq(n as nat));
        }
        s
    }
}

/// Renders a signed integer in decimal.
pub fn i64_to_dec_string(n: i64) -> (r: String)
    ensures
        r@ == signed_dec_seq(n as int),
{
    if n < 0 {
        let mag_wide: i128 = -(n as i128);
        let mag: u64 = mag_wide as u64;
        let mut s = String::from_str("-");
        s.append(u64_to_dec_string(mag).as_str());
        proof {
            reveal_strlit("-");
            assert(s@ =~= signed_dec_seq(n as int));
        }
        s
    } else {
        u64_to_dec_string(n as u64)
    }
}

/// Renders the lowest `width` decimal digits of `n`, zero padded.
pub fn u64_to_padded_dec(n: u64, width: u8) -> (r: String)
    ensures
        r@ == padded_dec_seq(n as nat, width as nat),
    decreases width,
{
    if width == 0 {
        let s = String::new();
        proof {
            assert(s@ =~= padded_dec_seq(n as nat, 0));
        }
        s
    } else {
        let mut s = u64_to_padded_dec(n / 10, width - 1);
        s.append(dec_digit_str(n % 10));
        proof {
            assert(s@ =~= padded_dec_seq(n as nat, width as nat));
        }
        s
    }
}

/// Renders the lowest `width` hexadecimal digits of `n`, zero padded.
pub fn u128_to_padded_hex(n: u128, width: u8) -> (r: String)
    ensures
        r@ == padded_hex_seq(n as nat, width as nat),
    decreases width,
{
    if width == 0 {
        let s = String::new();
        proof {
            assert(s@ =~= padded_hex_seq(n as nat, 0));
        }
        s
    } else {
        let mut s = u128_to_padded_hex(n / 16, width - 1);
        let d: u64 = (n % 16) as u64;
        s.append(hex_digit_str(d));
        proof {
            assert(s@ =~= padded_hex_seq(n as nat, width as nat));
        }
        s
    }
}

/// The canonical hyphenated rendering of a 128-bit identifier:
/// lowercase hexadecimal in groups of 8, 4, 4, 4 and 12 digits.
pub open spec fn uuid_seq(bits: u128) -> Seq<char> {
    padded_hex_seq((bits / 0x1_0000_0000_0000_0000_0000_0000) as nat, 8) + seq!['-']
        + padded_hex_seq(((bits / 0x1_0000_0000_0000_0000_0000) % 0x1_0000) as nat, 4) + seq!['-']
        + padded_hex_seq(((bits / 0x1_0000_0000_0000_0000) % 0x1_0000) as nat, 4) + seq!['-']
        + padded_hex_seq(((bits / 0x1_0000_0000_0000) % 0x1_0000) as nat, 4) + seq!['-']
        + padded_hex_seq((bits % 0x1_0000_0000_0000) as nat, 12)
}

/// Renders a 128-bit identifier as `uuid_seq` says.
pub fn uuid_to_string(bits: u128) -> (r: String)
    ensures
        r@ == uuid_seq(bits),
{
    let mut s = u128_to_padded_hex(bits / 0x1_0000_0000_0000_0000_0000_0000, 8);
    s.append("-");
    s.append(
        u128_to_padded_hex((bits / 0x1_0000_0000_0000_0000_0000) % 0x1_0000, 4).as_str(),
    );
    s.append("-");
    s.append(u128_to_padded_hex((bits / 0x1_0000_0000_0000_0000) % 0x1_0000, 4).as_str());
    s.append("-");
    s.append(u128_to_padded_hex((bits / 0x1_0000_0000_0000) % 0x1_0000, 4).as_str());
    s.append("-");
    s.append(u128_to_padded_hex(bits % 0x1_0000_0000_0000, 12).as_str());
    proof {
        reveal_strlit("-");
        assert(s@ =~= uuid_seq(bits));
    }
    s
}

/// Whether `c` is a decimal digit.
pub open spec fn is_dec_digit(c: char) -> bool {
    48 <= c as int <= 57
}

/// The numeric value of a decimal digit character.
pub open spec fn digit_val(c: char) -> nat {
    (c as int - 48) as nat
}

/// Whether every character of `s` is a decimal digit.
pub open spec fn all_dec_digits(s: Seq<char>) -> bool {
    forall|i: int| 0 <= i < s.len() ==> is_dec_digit(#[trigger] s[i])
}

/// The numeric value of a digit sequence, most significant digit first.
pub open spec fn dec_val(s: Seq<char>) -> nat
    decreases s.len(),
{
    if s.len() == 0 {
        0
    } else {
        dec_val(s.drop_last()) * 10 + digit_val(s.last())
    }
}

/// The digit body of an unsigned decimal literal: a single leading
/// `+` sign is allowed and skipped, as the standard library's parser does.
pub open spec fn unsigned_body(s: Seq<char>) -> Seq<char> {
    if s.len() > 0 && s[0] == '+' {
        s.subrange(1, s.len() as int)
    } else {
        s
    }
}

/// What parsing `s` as a `u32` yields: the digit value when `s` is an
/// optionally `+`-signed, nonempty digit string whose value fits,
/// nothing otherwise.
pub open spec fn parsed_u32(s: Seq<char>) -> Option<u32> {
    let b = unsigned_body(s);
    if b.len() > 0 && all_dec_digits(b) && dec_val(b) <= u32::MAX {
        Some(dec_val(b) as u32)
    } else {
        None
    }
}

/// The signed integer value of a decimal literal with an optional
/// leading `+` or `-` sign (meaningful only when `signed_wf` holds).
pub open spec fn signed_body(s: Seq<char>) -> Seq<char> {
    if s.len() > 0 && (s[0] == '+' || s[0] == '-') {
        s.subrange(1, s.len() as int)
    } else {
        s
    }
}

/// The value denoted by a signed decimal literal.
pub open spec fn signed_val(s: Seq<char>) -> int {
    if s.len() > 0 && s[0] == '-' {
        -(dec_val(signed_body(s)) as int)
    } else {
        dec_val(signed_body(s)) as int
    }
}

/// Whether `s` is a well-formed signed decimal literal: an optional
/// sign followed by at least one digit, and digits only.
pub open spec fn signed_wf(s: Seq<char>) -> bool {
    &&& signed_body(s).len() > 0
    &&& all_dec_digits(signed_body(s))
}

/// What parsing `s` as an `i64` yields.
pub open spec fn parsed_i64(s: Seq<char>) -> Option<i64> {
    if signed_wf(s) && i64::MIN <= signed_val(s) <= i64::MAX {
        Some(signed_val(s) as i64)
    } else {
        None
    }
}

/// What parsing `s` as an `i32` yields.
pub open spec fn parsed_i32(s: Seq<char>) -> Option<i32> {
    if signed_wf(s) && i32::MIN <= signed_val(s) <= i32::MAX {
        Some(signed_val(s) as i32)
    } else {
        None
    }
}

proof fn lemma_dec_val_take_step(s: Seq<char>, i: int)
    requires
        0 <= i < s.len(),
    ensures
        dec_val(s.take(i + 1)) == dec_val(s.take(i)) * 10 + digit_val(s[i]),
{
    assert(s.take(i + 1).drop_last() =~= s.take(i));
    assert(s.take(i + 1).last() == s[i]);
}

proof fn lemma_dec_val_prefix_le(s: Seq<char>, i: int)
    requires
        0 <= i <= s.len(),
    ensures
        dec_val(s.take(i)) <= dec_val(s),
    decreases s.len() - i,
{
    if i == s.len() {
        assert(s.take(i) =~= s);
    } else {
        lemma_dec_val_take_step(s, i);
        lemma_dec_val_prefix_le(s, i + 1);
    }
}

/// Parses `s` as a `u32`, accepting exactly what `parsed_u32` describes.
pub fn parse_u32(s: &str) -> (r: Option<u32>)
    ensures
        r == parsed_u32(s@),
{
    let len = s.unicode_len();
    let mut start: usize = 0;
    if len > 0 && s.get_char(0) == '+' {
        start = 1;
    }
    let ghost b = unsigned_body(s@);
    proof {
        assert(b =~= s@.subrange(start as int, len as int));
    }
    if start >= len {
        return None;
    }
    let mut acc: u64 = 0;
    let mut i: usize = start;
    while i < len
        invariant
            start <= i <= len,
            len == s@.len(),
            start == 0 || start == 1,
            b == unsigned_body(s@),
            b =~= s@.subrange(start as int, len as int),
            len > start,
            all_dec_digits(b.take(i - start)),
            acc == dec_val(b.take(i - start)),
            acc <= u32::MAX,
        decreases len - i,
    {
        let c = s.get_char(i);
        let cv = c as u32;
        if cv < 48 || cv > 57 {
            proof {
                assert(b[i - start] == s@[i as int]);
                assert(!is_dec_digit(b[i - start]));
            }
            return None;
        }
        let d: u64 = (cv - 48) as u64;
        let next: u64 = acc * 10 + d;
        proof {
            lemma_dec_val_take_step(b, i - start);
            assert(b[i - start] == s@[i as int]);
            assert(digit_val(b[i - start]) == d);
            assert(b.take(i - start + 1).drop_last() =~= b.take(i - start));
        }
        if next > 0xFFFF_FFFF {
            proof {
                lemma_dec_val_prefix_le(b, i - start + 1);
                assert(dec_val(b) >= next > u32::MAX);
            }
            return None;
        }
        acc = next;
        i = i + 1;
    }
    proof {
        assert(b.take(len - start) =~= b);
    }
    Some(acc as u32)
}

/// Parses `s` as an `i64`, accepting exactly what `parsed_i64` describes.
pub fn parse_i64(s: &str) -> (r: Option<i64>)
    ensures
        r == parsed_i64(s@),
{
    let len = s.unicode_len();
    let mut start: usize = 0;
    let mut negative: bool = false;
    if len > 0 {
        let c0 = s.get_char(0);
        if c0 == '+' {
            start = 1;
        } else if c0 == '-' {
            start = 1;
            negative = true;
        }
    }
    let ghost b = signed_body(s@);
    proof {
        assert(b =~= s@.subrange(start as int, len as int));
    }
    if start >= len {
        return None;
    }
    // The largest magnitude that can still denote an i64: 2^63 for a
    // negative literal, 2^63 - 1 otherwise.
    let limit: u64 = if negative {
        9_223_372_036_854_775_808
    } else {
        9_223_372_036_854_775_807
    };
    let mut acc: u64 = 0;
    let mut i: usize = start;
    while i < len
        invariant
            start <= i <= len,
            len == s@.len(),
            start == 0 || start == 1,
            b == signed_body(s@),
            b =~= s@.subrange(start as int, len as int),
            len > start,
            negative <==> (s@.len() > 0 && s@[0] == '-'),
            limit == if negative {
                9_223_372_036_854_775_808u64
            } else {
                9_223_372_036_854_775_807u64
            },
            all_dec_digits(b.take(i - start)),
            acc == dec_val(b.take(i - start)),
            acc <= limit,
        decreases len - i,
    {
        let c = s.get_char(i);
        let cv = c as u32;
        if cv < 48 || cv > 57 {
            proof {
                assert(b[i - start] == s@[i as int]);
                assert(!is_dec_digit(b[i - start]));
            }
            return None;
        }
        let d: u64 = (cv - 48) as u64;
        proof {
            lemma_dec_val_take_step(b, i - start);
            assert(b[i - start] == s@[i as int]);
            assert(digit_val(b[i - start]) == d);
        }
        if acc > (limit - d) / 10 {
            proof {
                lemma_dec_val_prefix_le(b, i - start + 1);
                assert(dec_val(b.take(i - start + 1)) == acc * 10 + d);
                assert(acc * 10 + d > limit) by (nonlinear_arith)
                    requires
                        acc > (limit - d) / 10,
                        d < 10,
                        limit >= d,
                ;
                assert(dec_val(b) > limit);
            }
            return None;
        }
        let next: u64 = acc * 10 + d;
        acc = next;
        i = i + 1;
    }
    proof {
        assert(b.take(len - start) =~= b);
        assert(dec_val(b) == acc);
    }
    if negative {
        let wide: i128 = -(acc as i128);
        Some(wide as i64)
    } else {
        Some(acc as i64)
    }
}

/// Parses `s` as an `i32`, accepting exactly what `parsed_i32` describes.
pub fn parse_i32(s: &str) -> (r: Option<i32>)
    ensures
        r == parsed_i32(s@),
{
    match parse_i64(s) {
        Some(v) => {
            if -2_147_483_648i64 <= v && v <= 2_147_483_647i64 {
                Some(v as i32)
            } else {
                None
            }
        },
        None => None,
    }
}

} // verus!
