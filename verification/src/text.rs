use vstd::prelude::*;
use vstd::string::StringExecFns;

verus! {

/// The characters that count as blank space when a token is trimmed.
pub open spec fn is_space_char(c: char) -> bool {
    c == ' ' || c == '\t' || c == '\n' || c == '\r'
}

/// ASCII lower-casing of a single character.
pub open spec fn lower_char(c: char) -> char {
    if 'A' as u32 <= c as u32 && c as u32 <= 'Z' as u32 {
        ((c as u32) + 32) as char
    } else {
        c
    }
}

/// ASCII lower-casing of a sequence of characters.
pub open spec fn lower_seq(s: Seq<char>) -> Seq<char> {
    s.map_values(|c: char| lower_char(c))
}

/// The sequence without its leading blank space.
pub open spec fn trim_start_spec(s: Seq<char>) -> Seq<char>
    decreases s.len(),
{
    if s.len() > 0 && is_space_char(s[0]) {
        trim_start_spec(s.skip(1))
    } else {
        s
    }
}

/// The sequence without its trailing blank space.
pub open spec fn trim_end_spec(s: Seq<char>) -> Seq<char>
    decreases s.len(),
{
    if s.len() > 0 && is_space_char(s[s.len() - 1]) {
        trim_end_spec(s.take(s.len() - 1))
    } else {
        s
    }
}

/// The sequence without leading and trailing blank space.
pub open spec fn trim_spec(s: Seq<char>) -> Seq<char> {
    trim_end_spec(trim_start_spec(s))
}

/// A token normalised the way every command parser normalises its input:
/// trimmed, then lower-cased.
pub open spec fn norm_spec(s: Seq<char>) -> Seq<char> {
    lower_seq(trim_spec(s))
}

/// The index of the first occurrence of `c` in `s`, or `s.len()` if there
/// is none.
pub open spec fn until_char(s: Seq<char>, c: char) -> int
    decreases s.len(),
{
    if s.len() == 0 {
        0
    } else if s[0] == c {
        0
    } else {
        1 + until_char(s.skip(1), c)
    }
}

pub proof fn lemma_until_char(s: Seq<char>, c: char)
    ensures
        0 <= until_char(s, c) <= s.len(),
        until_char(s, c) < s.len() ==> s[until_char(s, c)] == c,
        forall|k: int| 0 <= k < until_char(s, c) ==> s[k] != c,
    decreases s.len(),
{
    if s.len() == 0 {
    } else if s[0] == c {
    } else {
        lemma_until_char(s.skip(1), c);
        assert forall|k: int| 0 <= k < until_char(s, c) implies s[k] != c by {
            if k > 0 {
                assert(s.skip(1)[k - 1] == s[k]);
            }
        }
    }
}

/// The pieces of `s` between its commas, in order; a sequence without a
/// comma is one piece, and each comma separates two pieces.
pub open spec fn split_commas_spec(s: Seq<char>) -> Seq<Seq<char>>
    decreases s.len(),
{
    if s.len() == 0 {
        seq![Seq::<char>::empty()]
    } else if s[0] == ',' {
        seq![Seq::<char>::empty()] + split_commas_spec(s.skip(1))
    } else {
        let rest = split_commas_spec(s.skip(1));
        seq![seq![s[0]] + rest[0]] + rest.skip(1)
    }
}

pub proof fn lemma_split_commas_len(s: Seq<char>)
    ensures
        split_commas_spec(s).len() >= 1,
    decreases s.len(),
{
    if s.len() == 0 {
    } else {
        lemma_split_commas_len(s.skip(1));
    }
}

/// The characters of a string, in order.
pub fn chars_of(s: &str) -> (r: Vec<char>)
    ensures
        r@ == s@,
{
    let n: usize = s.unicode_len();
    let mut r: Vec<char> = Vec::new();
    let mut i: usize = 0;
    while i < n
        invariant
            n == s@.len(),
            i <= n,
            r@ == s@.take(i as int),
        decreases n - i,
    {
        r.push(s.get_char(i));
        assert(r@ =~= s@.take(i as int + 1));
        i = i + 1;
    }
    assert(r@ =~= s@);
    r
}

/// Relies on `String`'s `FromIterator<&char>` implementation, through
/// `Iterator::collect`: the returned string holds exactly the given
/// characters, in order.
#[verifier::external_body]
pub fn chars_to_string(cs: &Vec<char>) -> (r: String)
    ensures
        r@ == cs@,
{
    cs.iter().collect()
}

/// The two pieces joined into one string.
pub fn concat2(prefix: &str, mid: &str) -> (r: String)
    ensures
        r@ == prefix@ + mid@,
{
    let mut s = String::new();
    s.append(prefix);
    s.append(mid);
    proof {
        assert(s@ =~= prefix@ + mid@);
    }
    s
}

/// The three pieces joined into one string.
pub fn concat3(prefix: &str, mid: &str, suffix: &str) -> (r: String)
    ensures
        r@ == prefix@ + mid@ + suffix@,
{
    let mut s = String::new();
    s.append(prefix);
    s.append(mid);
    s.append(suffix);
    proof {
        assert(s@ =~= prefix@ + mid@ + suffix@);
    }
    s
}

/// Whether this character counts as blank space.
pub fn is_space(c: char) -> (r: bool)
    ensures
        r == is_space_char(c),
{
    c == ' ' || c == '\t' || c == '\n' || c == '\r'
}

/// ASCII lower-casing of one character.
pub fn to_lower_char(c: char) -> (r: char)
    ensures
        r == lower_char(c),
{
    let u: u32 = c as u32;
    if 65 <= u && u <= 90 {
        ((u + 32) as u8) as char
    } else {
        c
    }
}

/// The characters, trimmed of leading and trailing blank space.
pub fn trimmed(cs: &Vec<char>) -> (r: Vec<char>)
    ensures
        r@ == trim_spec(cs@),
{
    let mut a: usize = 0;
    proof {
        assert(cs@.skip(0) =~= cs@);
    }
    while a < cs.len() && is_space(cs[a])
        invariant
            a <= cs@.len(),
            trim_start_spec(cs@) == trim_start_spec(cs@.skip(a as int)),
        decreases cs@.len() - a,
    {
        assert(cs@.skip(a as int).skip(1) =~= cs@.skip(a as int + 1));
        a = a + 1;
    }
    let ghost start = cs@.skip(a as int);
    proof {
        assert(trim_start_spec(cs@) == start);
    }
    let mut b: usize = cs.len();
    proof {
        assert(start.take(b as int - a as int) =~= start);
    }
    while b > a && is_space(cs[b - 1])
        invariant
            a <= b <= cs@.len(),
            start == cs@.skip(a as int),
            trim_end_spec(start) == trim_end_spec(start.take(b as int - a as int)),
        decreases b,
    {
        proof {
            let t = start.take(b as int - a as int);
            assert(t[t.len() - 1] == cs@[b as int - 1]);
            assert(t.take(t.len() - 1) =~= start.take(b as int - 1 - a as int));
        }
        b = b - 1;
    }
    let mut r: Vec<char> = Vec::new();
    let mut i: usize = a;
    while i < b
        invariant
            a <= i <= b <= cs@.len(),
            r@ == cs@.subrange(a as int, i as int),
        decreases b - i,
    {
        r.push(cs[i]);
        assert(r@ =~= cs@.subrange(a as int, i as int + 1));
        i = i + 1;
    }
    proof {
        let t = start.take(b as int - a as int);
        if b == a {
            assert(t =~= Seq::<char>::empty());
        } else {
            assert(t[t.len() - 1] == cs@[b as int - 1]);
        }
        assert(trim_end_spec(t) == t);
        assert(r@ =~= t);
    }
    r
}

/// The characters, ASCII lower-cased.
pub fn lowered(cs: &Vec<char>) -> (r: Vec<char>)
    ensures
        r@ == lower_seq(cs@),
{
    let mut r: Vec<char> = Vec::new();
    let mut i: usize = 0;
    while i < cs.len()
        invariant
            i <= cs@.len(),
            r@ == lower_seq(cs@.take(i as int)),
        decreases cs@.len() - i,
    {
        r.push(to_lower_char(cs[i]));
        assert(r@ =~= lower_seq(cs@.take(i as int + 1)));
        i = i + 1;
    }
    assert(cs@.take(cs@.len() as int) =~= cs@);
    r
}

/// The characters of a token, normalised: trimmed, then lower-cased.
pub fn normalized(cs: &Vec<char>) -> (r: Vec<char>)
    ensures
        r@ == norm_spec(cs@),
{
    let t = trimmed(cs);
    lowered(&t)
}

/// Whether the characters equal the given string.
pub fn eq_str(cs: &Vec<char>, s: &str) -> (r: bool)
    ensures
        r == (cs@ == s@),
{
    let n: usize = s.unicode_len();
    if cs.len() != n {
        return false;
    }
    let mut i: usize = 0;
    while i < n
        invariant
            n == s@.len(),
            n == cs@.len(),
            i <= n,
            forall|k: int| 0 <= k < i ==> cs@[k] == s@[k],
        decreases n - i,
    {
        if cs[i] != s.get_char(i) {
            return false;
        }
        i = i + 1;
    }
    proof {
        assert(cs@ =~= s@);
    }
    true
}

/// The index of the first occurrence of `c`, or the length if there is
/// none.
pub fn find_char(cs: &Vec<char>, c: char) -> (r: usize)
    ensures
        r == until_char(cs@, c),
        r <= cs@.len(),
        r < cs@.len() ==> cs@[r as int] == c,
        forall|k: int| 0 <= k < r ==> cs@[k] != c,
{
    let mut i: usize = 0;
    proof {
        assert(cs@.skip(0) =~= cs@);
    }
    while i < cs.len() && cs[i] != c
        invariant
            i <= cs@.len(),
            until_char(cs@, c) == i + until_char(cs@.skip(i as int), c),
            forall|k: int| 0 <= k < i ==> cs@[k] != c,
        decreases cs@.len() - i,
    {
        assert(cs@.skip(i as int).skip(1) =~= cs@.skip(i as int + 1));
        i = i + 1;
    }
    proof {
        if i < cs@.len() {
            assert(until_char(cs@.skip(i as int), c) == 0);
        } else {
            assert(cs@.skip(i as int) =~= Seq::<char>::empty());
        }
        lemma_until_char(cs@, c);
    }
    i
}

/// A copy of a range of the characters.
pub fn sub_chars(cs: &Vec<char>, from: usize, to: usize) -> (r: Vec<char>)
    requires
        from <= to <= cs@.len(),
    ensures
        r@ == cs@.subrange(from as int, to as int),
{
    let mut r: Vec<char> = Vec::new();
    let mut i: usize = from;
    while i < to
        invariant
            from <= i <= to <= cs@.len(),
            r@ == cs@.subrange(from as int, i as int),
        decreases to - i,
    {
        r.push(cs[i]);
        assert(r@ =~= cs@.subrange(from as int, i as int + 1));
        i = i + 1;
    }
    r
}

/// The pieces of the characters between their commas, in order.
pub fn split_commas(cs: &Vec<char>) -> (r: Vec<Vec<char>>)
    ensures
        r@.len() == split_commas_spec(cs@).len(),
        forall|j: int| 0 <= j < r@.len() ==> r@[j]@ == split_commas_spec(cs@)[j],
{
    let ghost full = split_commas_spec(cs@);
    let mut parts: Vec<Vec<char>> = Vec::new();
    let mut cur: Vec<char> = Vec::new();
    let mut i: usize = 0;
    proof {
        lemma_split_commas_len(cs@);
        assert(cs@.skip(0) =~= cs@);
        assert(Seq::<char>::empty() + full[0] =~= full[0]);
    }
    while i < cs.len()
        invariant
            i <= cs@.len(),
            full == split_commas_spec(cs@),
            parts@.len() + split_commas_spec(cs@.skip(i as int)).len() == full.len(),
            forall|j: int| 0 <= j < parts@.len() ==> parts@[j]@ == full[j],
            cur@ + split_commas_spec(cs@.skip(i as int))[0] == full[parts@.len() as int],
            forall|k: int|
                1 <= k < split_commas_spec(cs@.skip(i as int)).len() ==> split_commas_spec(
                    cs@.skip(i as int),
                )[k] == full[parts@.len() + k],
        decreases cs@.len() - i,
    {
        let ghost rem = cs@.skip(i as int);
        let ghost rem2 = cs@.skip(i as int + 1);
        proof {
            assert(rem.skip(1) =~= rem2);
            lemma_split_commas_len(rem2);
            assert(rem[0] == cs@[i as int]);
        }
        if cs[i] == ',' {
            proof {
                assert(split_commas_spec(rem) == seq![Seq::<char>::empty()]
                    + split_commas_spec(rem2));
                assert(split_commas_spec(rem)[0] =~= Seq::<char>::empty());
                assert(cur@ + Seq::<char>::empty() =~= cur@);
            }
            let done = cur;
            cur = Vec::new();
            parts.push(done);
            proof {
                assert(cur@ + split_commas_spec(rem2)[0] =~= split_commas_spec(rem)[1]);
                assert forall|k: int| 1 <= k < split_commas_spec(rem2).len() implies split_commas_spec(
                    rem2,
                )[k] == full[parts@.len() + k] by {
                    assert(split_commas_spec(rem)[k + 1] == split_commas_spec(rem2)[k]);
                }
            }
        } else {
            proof {
                assert(split_commas_spec(rem) == seq![
                    seq![rem[0]] + split_commas_spec(rem2)[0],
                ] + split_commas_spec(rem2).skip(1));
                assert(cur@.push(rem[0]) + split_commas_spec(rem2)[0] =~= cur@ + (seq![rem[0]]
                    + split_commas_spec(rem2)[0]));
                assert forall|k: int| 1 <= k < split_commas_spec(rem2).len() implies split_commas_spec(
                    rem2,
                )[k] == full[parts@.len() + k] by {
                    assert(split_commas_spec(rem)[k] == split_commas_spec(rem2).skip(1)[k - 1]);
                }
            }
            cur.push(cs[i]);
        }
        i = i + 1;
    }
    proof {
        assert(cs@.skip(i as int) =~= Seq::<char>::empty());
        assert(cur@ + split_commas_spec(Seq::<char>::empty())[0] =~= cur@);
    }
    parts.push(cur);
    proof {
        assert(parts@.len() == full.len());
    }
    parts
}

} // verus!
