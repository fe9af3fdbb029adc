use vstd::prelude::*;

verus! {

/// The character for one hexadecimal digit value.
pub open spec fn hex_digit_char(d: int) -> char {
    if d < 10 {
        (('0' as u32) + d) as char
    } else {
        (('a' as u32) + (d - 10)) as char
    }
}

/// `v` written with exactly `digits` hexadecimal digits, most significant
/// first, zero-padded on the left.
pub open spec fn hex_str(v: int, digits: nat) -> Seq<char>
    decreases digits,
{
    if digits == 0 {
        Seq::<char>::empty()
    } else {
        hex_str(v / 16, (digits - 1) as nat).push(hex_digit_char(v % 16))
    }
}

/// `v` written in decimal, most significant digit first, no padding.
pub open spec fn dec_str(v: int) -> Seq<char>
    decreases v,
{
    if v < 10 {
        seq![hex_digit_char(if v < 0 { 0 } else { v })]
    } else {
        dec_str(v / 10).push(hex_digit_char(v % 10))
    }
}

/// A machine word as the debugger prints it: `0x` and eight hexadecimal
/// digits of its 32-bit two's-complement pattern.
pub open spec fn word_hex(v: i32) -> Seq<char> {
    seq!['0', 'x'] + hex_str((v as u32) as int, 8)
}

/// A 16-bit register value as the debugger prints it: `0x` and eight
/// zero-padded hexadecimal digits.
pub open spec fn half_hex(v: u16) -> Seq<char> {
    seq!['0', 'x'] + hex_str(v as int, 8)
}

/// A memory address as the debugger prints it: `0x` and two hexadecimal
/// digits.
pub open spec fn addr_hex(a: int) -> Seq<char> {
    seq!['0', 'x'] + hex_str(a, 2)
}

/// The character for one digit value below 16.
pub fn hex_digit(d: u64) -> (r: char)
    requires
        d < 16,
    ensures
        r == hex_digit_char(d as int),
{
    if d < 10 {
        ((48 + d) as u8) as char
    } else {
        ((87 + d) as u8) as char
    }
}

/// The characters of `v` written with exactly `digits` hexadecimal
/// digits.
pub fn hex_chars(v: u64, digits: usize) -> (r: Vec<char>)
    ensures
        r@ == hex_str(v as int, digits as nat),
    decreases digits,
{
    if digits == 0 {
        Vec::new()
    } else {
        let mut r = hex_chars(v / 16, digits - 1);
        r.push(hex_digit(v % 16));
        r
    }
}

/// The characters of `v` written in decimal.
pub fn dec_chars(v: u64) -> (r: Vec<char>)
    ensures
        r@ == dec_str(v as int),
    decreases v,
{
    if v < 10 {
        let mut r: Vec<char> = Vec::new();
        r.push(hex_digit(v));
        proof {
            assert(r@ =~= seq![hex_digit_char(v as int)]);
        }
        r
    } else {
        let mut r = dec_chars(v / 10);
        r.push(hex_digit(v % 10));
        r
    }
}

/// The characters of a machine word: `0x` and eight hexadecimal digits of
/// its bit pattern.
pub fn word_hex_chars(v: i32) -> (r: Vec<char>)
    ensures
        r@ == word_hex(v),
{
    let mut r: Vec<char> = Vec::new();
    r.push('0');
    r.push('x');
    let mut ds = hex_chars(#[verifier::truncate] (v as u32) as u64, 8);
    r.append(&mut ds);
    proof {
        assert(r@ =~= word_hex(v));
    }
    r
}

/// The characters of a 16-bit register value: `0x` and eight zero-padded
/// hexadecimal digits.
pub fn half_hex_chars(v: u16) -> (r: Vec<char>)
    ensures
        r@ == half_hex(v),
{
    let mut r: Vec<char> = Vec::new();
    r.push('0');
    r.push('x');
    let mut ds = hex_chars(v as u64, 8);
    r.append(&mut ds);
    proof {
        assert(r@ =~= half_hex(v));
    }
    r
}

/// The characters of a memory address: `0x` and two hexadecimal digits.
pub fn addr_hex_chars(a: usize) -> (r: Vec<char>)
    requires
        a < 256,
    ensures
        r@ == addr_hex(a as int),
{
    let mut r: Vec<char> = Vec::new();
    r.push('0');
    r.push('x');
    let mut ds = hex_chars(a as u64, 2);
    r.append(&mut ds);
    proof {
        assert(r@ =~= addr_hex(a as int));
    }
    r
}

} // verus!
