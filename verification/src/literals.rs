use vstd::prelude::*;
use crate::text::norm_spec;

verus! {

/// The numeric value of a digit character, or an invalid sentinel above
/// every base.  Digits beyond 9 are the lower-case letters `a` to `f`.
pub open spec fn digit_val(c: char) -> int {
    if '0' as u32 <= c as u32 && c as u32 <= '9' as u32 {
        c as u32 - '0' as u32
    } else if 'a' as u32 <= c as u32 && c as u32 <= 'f' as u32 {
        c as u32 - 'a' as u32 + 10
    } else {
        99
    }
}

/// The value of a digit string read in the given base, most significant
/// digit first.
pub open spec fn digits_val(s: Seq<char>, base: int) -> int
    decreases s.len(),
{
    if s.len() == 0 {
        0
    } else {
        digits_val(s.drop_last(), base) * base + digit_val(s.last())
    }
}

/// Whether `s` is a non-empty string of digits of the given base.
pub open spec fn all_digits(s: Seq<char>, base: int) -> bool {
    s.len() > 0 && forall|i: int| 0 <= i < s.len() ==> digit_val(s[i]) < base
}

/// The base selected by the literal prefix of a normalised token: `0x` is
/// hexadecimal, `0o` octal, `0b` binary, and `0d` or no prefix decimal.
pub open spec fn prefix_base(t: Seq<char>) -> int {
    if t.len() >= 2 && t[0] == '0' && t[1] == 'x' {
        16
    } else if t.len() >= 2 && t[0] == '0' && t[1] == 'o' {
        8
    } else if t.len() >= 2 && t[0] == '0' && t[1] == 'b' {
        2
    } else {
        10
    }
}

/// How many characters the literal prefix of a normalised token takes.
pub open spec fn prefix_len(t: Seq<char>) -> int {
    if t.len() >= 2 && t[0] == '0' && (t[1] == 'x' || t[1] == 'o' || t[1] == 'b' || t[1]
        == 'd') {
        2
    } else {
        0
    }
}

/// The value of a normalised token read as an unsigned literal: an
/// optional base prefix, an optional `+`, and a non-empty digit string.
/// `None` when the token does not have that shape.
pub open spec fn unsigned_literal(t: Seq<char>) -> Option<int> {
    let rest = t.skip(prefix_len(t));
    let ds = if rest.len() >= 1 && rest[0] == '+' {
        rest.skip(1)
    } else {
        rest
    };
    if rest.len() >= 1 && rest[0] == '-' {
        None
    } else if all_digits(ds, prefix_base(t)) {
        Some(digits_val(ds, prefix_base(t)))
    } else {
        None
    }
}

/// The value of a normalised token read as a signed machine word: an
/// optional base prefix, an optional sign, and a non-empty digit string.
/// The digits are reduced to the low 32 bits of their value, in
/// two's-complement; `None` when the token does not have that shape.
pub open spec fn word_literal(t: Seq<char>) -> Option<i32> {
    let rest = t.skip(prefix_len(t));
    let neg = rest.len() >= 1 && rest[0] == '-';
    let ds = if rest.len() >= 1 && (rest[0] == '-' || rest[0] == '+') {
        rest.skip(1)
    } else {
        rest
    };
    if all_digits(ds, prefix_base(t)) {
        let m = digits_val(ds, prefix_base(t)) % 0x1_0000_0000;
        let u = if neg {
            (0x1_0000_0000 - m) % 0x1_0000_0000
        } else {
            m
        };
        Some(((u as u64) as u32) as i32)
    } else {
        None
    }
}

/// The value of a (whole, un-normalised) token read as an unsigned
/// literal, after trimming and lower-casing.
pub open spec fn unsigned_token(s: Seq<char>) -> Option<int> {
    unsigned_literal(norm_spec(s))
}

/// The value of a (whole, un-normalised) token read as a machine word,
/// after trimming and lower-casing.
pub open spec fn word_token(s: Seq<char>) -> Option<i32> {
    word_literal(norm_spec(s))
}

pub proof fn lemma_digits_val_nonneg(s: Seq<char>, base: int)
    requires
        base >= 1,
    ensures
        digits_val(s, base) >= 0,
    decreases s.len(),
{
    if s.len() > 0 {
        lemma_digits_val_nonneg(s.drop_last(), base);
        assert(digits_val(s.drop_last(), base) * base >= 0) by (nonlinear_arith)
            requires
                digits_val(s.drop_last(), base) >= 0,
                base >= 1,
        ;
        assert(digit_val(s.last()) >= 0);
    }
}

/// Reading more digits can only grow the value: the value of a prefix of a
/// digit string is at most the value of the whole string.
pub proof fn lemma_digits_val_prefix_le(s: Seq<char>, k: int, base: int)
    requires
        base >= 1,
        0 <= k <= s.len(),
    ensures
        digits_val(s.take(k), base) <= digits_val(s, base),
    decreases s.len(),
{
    if k == s.len() {
        assert(s.take(k) =~= s);
    } else {
        assert(s.drop_last().take(k) =~= s.take(k));
        lemma_digits_val_prefix_le(s.drop_last(), k, base);
        lemma_digits_val_nonneg(s.drop_last(), base);
        assert(digits_val(s.drop_last(), base) * base >= digits_val(s.drop_last(), base))
            by (nonlinear_arith)
            requires
                digits_val(s.drop_last(), base) >= 0,
                base >= 1,
        ;
        assert(digit_val(s.last()) >= 0);
    }
}

/// The digit value of one character, when it is a digit of the given
/// base.
pub fn digit_of(c: char, base: u32) -> (r: Option<u32>)
    requires
        base <= 16,
    ensures
        match r {
            Some(d) => digit_val(c) < base && d == digit_val(c),
            None => digit_val(c) >= base,
        },
{
    let u: u32 = c as u32;
    let d: u32 = if 48 <= u && u <= 57 {
        u - 48
    } else if 97 <= u && u <= 102 {
        u - 87
    } else {
        99
    };
    if d < base {
        Some(d)
    } else {
        None
    }
}

/// Reads the digits of `cs` from position `from` on in the given base.
/// Succeeds exactly when they are a non-empty digit string whose value is
/// at most `max`, and then returns that value.
pub fn parse_digits_max(cs: &Vec<char>, from: usize, base: u32, max: u64) -> (r: Option<
    u64,
>)
    requires
        1 <= base <= 16,
        from <= cs@.len(),
    ensures
        match r {
            Some(v) => all_digits(cs@.skip(from as int), base as int) && v == digits_val(
                cs@.skip(from as int),
                base as int,
            ) && v <= max,
            None => !(all_digits(cs@.skip(from as int), base as int) && digits_val(
                cs@.skip(from as int),
                base as int,
            ) <= max),
        },
{
    let ghost ds = cs@.skip(from as int);
    if from == cs.len() {
        proof {
            assert(ds =~= Seq::<char>::empty());
        }
        return None;
    }
    let mut acc: u64 = 0;
    let mut i: usize = from;
    while i < cs.len()
        invariant
            from <= i <= cs@.len(),
            from < cs@.len(),
            1 <= base <= 16,
            ds == cs@.skip(from as int),
            acc <= max,
            acc == digits_val(ds.take(i - from), base as int),
            forall|k: int| 0 <= k < i - from ==> digit_val(ds[k]) < base,
        decreases cs@.len() - i,
    {
        let ghost j = i - from;
        proof {
            assert(ds.take(j + 1).drop_last() =~= ds.take(j));
            assert(ds.take(j + 1).last() == ds[j]);
            assert(ds[j] == cs@[i as int]);
        }
        let d: u32 = match digit_of(cs[i], base) {
            Some(d) => d,
            None => {
                return None;
            },
        };
        proof {
            assert((acc as int) * (base as int) <= 0xFFFF_FFFF_FFFF_FFFF * 16)
                by (nonlinear_arith)
                requires
                    acc <= 0xFFFF_FFFF_FFFF_FFFFu64,
                    1 <= base <= 16,
            ;
        }
        let wide: u128 = (acc as u128) * (base as u128) + (d as u128);
        if wide > max as u128 {
            proof {
                if all_digits(ds, base as int) {
                    lemma_digits_val_prefix_le(ds, j + 1, base as int);
                }
            }
            return None;
        }
        acc = wide as u64;
        i = i + 1;
    }
    proof {
        assert(ds.take(cs@.len() - from) =~= ds);
    }
    Some(acc)
}

/// Reads the digits of `cs` from position `from` on in the given base,
/// keeping only the low 32 bits of their value.  Succeeds exactly when
/// they are a non-empty digit string.
pub fn parse_digits_wrap(cs: &Vec<char>, from: usize, base: u32) -> (r: Option<u32>)
    requires
        1 <= base <= 16,
        from <= cs@.len(),
    ensures
        match r {
            Some(v) => all_digits(cs@.skip(from as int), base as int) && v == digits_val(
                cs@.skip(from as int),
                base as int,
            ) % 0x1_0000_0000,
            None => !all_digits(cs@.skip(from as int), base as int),
        },
{
    let ghost ds = cs@.skip(from as int);
    if from == cs.len() {
        proof {
            assert(ds =~= Seq::<char>::empty());
        }
        return None;
    }
    let mut acc: u32 = 0;
    let mut i: usize = from;
    while i < cs.len()
        invariant
            from <= i <= cs@.len(),
            from < cs@.len(),
            1 <= base <= 16,
            ds == cs@.skip(from as int),
            acc == digits_val(ds.take(i - from), base as int) % 0x1_0000_0000,
            forall|k: int| 0 <= k < i - from ==> digit_val(ds[k]) < base,
        decreases cs@.len() - i,
    {
        let ghost j = i - from;
        proof {
            assert(ds.take(j + 1).drop_last() =~= ds.take(j));
            assert(ds.take(j + 1).last() == ds[j]);
            assert(ds[j] == cs@[i as int]);
        }
        let d: u32 = match digit_of(cs[i], base) {
            Some(d) => d,
            None => {
                return None;
            },
        };
        proof {
            assert((acc as int) * (base as int) <= 0xFFFF_FFFF * 16) by (nonlinear_arith)
                requires
                    acc <= 0xFFFF_FFFFu32,
                    1 <= base <= 16,
            ;
        }
        let wide: u64 = (acc as u64) * (base as u64) + (d as u64);
        let next: u64 = wide % 0x1_0000_0000;
        proof {
            let a = digits_val(ds.take(j), base as int);
            let m = 0x1_0000_0000int;
            lemma_digits_val_nonneg(ds.take(j), base as int);
            vstd::arithmetic::div_mod::lemma_mul_mod_noop_left(a, base as int, m);
            vstd::arithmetic::div_mod::lemma_add_mod_noop(a * base, d as int, m);
            vstd::arithmetic::div_mod::lemma_add_mod_noop((a % m) * base, d as int, m);
            assert((d as int) % m == d as int);
            assert(((a % m) * base + d) % m == (a * base + d) % m);
            assert(digits_val(ds.take(j + 1), base as int) == a * base + d);
        }
        acc = next as u32;
        i = i + 1;
    }
    proof {
        assert(ds.take(cs@.len() - from) =~= ds);
    }
    Some(acc)
}

/// Reads a whole normalised token as an unsigned literal with value at
/// most `max`: prefix, optional `+`, digits.
pub fn parse_unsigned_chars(t: &Vec<char>, max: u64) -> (r: Option<u64>)
    ensures
        match r {
            Some(v) => unsigned_literal(t@) == Some(v as int) && v <= max,
            None => match unsigned_literal(t@) {
                Some(v) => v > max,
                None => true,
            },
        },
{
    let (base, plen): (u32, usize) = scan_prefix(t);
    let mut from: usize = plen;
    proof {
        assert(t@.skip(plen as int).len() == t@.len() - plen);
    }
    if from < t.len() && t[from] == '-' {
        return None;
    }
    if from < t.len() && t[from] == '+' {
        proof {
            assert(t@.skip(plen as int).skip(1) =~= t@.skip(plen as int + 1));
        }
        from = from + 1;
    }
    parse_digits_max(t, from, base, max)
}

/// Reads a whole normalised token as a signed machine word: prefix,
/// optional sign, digits, reduced to 32 bits in two's-complement.
pub fn parse_word_chars(t: &Vec<char>) -> (r: Option<i32>)
    ensures
        r == word_literal(t@),
{
    let (base, plen): (u32, usize) = scan_prefix(t);
    let mut from: usize = plen;
    let mut neg: bool = false;
    proof {
        assert(t@.skip(plen as int).len() == t@.len() - plen);
    }
    if from < t.len() && (t[from] == '-' || t[from] == '+') {
        neg = t[from] == '-';
        proof {
            assert(t@.skip(plen as int).skip(1) =~= t@.skip(plen as int + 1));
        }
        from = from + 1;
    }
    match parse_digits_wrap(t, from, base) {
        Some(m) => {
            let u: u64 = if neg {
                (0x1_0000_0000u64 - (m as u64)) % 0x1_0000_0000u64
            } else {
                m as u64
            };
            Some(((u as u32) as i32))
        },
        None => None,
    }
}

/// The base and length of the literal prefix of a normalised token.
fn scan_prefix(t: &Vec<char>) -> (r: (u32, usize))
    ensures
        r.0 == prefix_base(t@),
        r.1 == prefix_len(t@),
        r.1 <= t@.len(),
        1 <= r.0 <= 16,
{
    if t.len() >= 2 && t[0] == '0' {
        let c1: char = t[1];
        if c1 == 'x' {
            (16, 2)
        } else if c1 == 'o' {
            (8, 2)
        } else if c1 == 'b' {
            (2, 2)
        } else if c1 == 'd' {
            (10, 2)
        } else {
            (10, 0)
        }
    } else {
        (10, 0)
    }
}

} // verus!
