use vstd::prelude::*;
use vstd::string::StringExecFns;
use crate::args::Registers;
use crate::literals::unsigned_token;
use crate::literals::word_token;
use crate::literals::parse_unsigned_chars;
use crate::literals::parse_word_chars;
use crate::render::dec_str;
use crate::render::dec_chars;
use crate::text::chars_of;
use crate::text::chars_to_string;
use crate::text::eq_str;
use crate::text::norm_spec;
use crate::text::lowered;
use crate::text::normalized;
use crate::text::split_commas;
use crate::text::split_commas_spec;
use crate::text::trim_spec;
use crate::text::trimmed;

verus! {

/// The register a name token stands for: `accumulator`, `instruction` or
/// `instructionaddress`, case-insensitively and ignoring surrounding
/// blank space.
pub open spec fn register_of(t: Seq<char>) -> Option<Registers> {
    let n = norm_spec(t);
    if n == "accumulator"@ {
        Some(Registers::Accumulator)
    } else if n == "instruction"@ {
        Some(Registers::Instruction)
    } else if n == "instructionaddress"@ {
        Some(Registers::InstructionAddress)
    } else {
        None
    }
}

/// The memory address a token stands for: an unsigned literal whose value
/// lies inside the machine's store.
pub open spec fn address_of(t: Seq<char>) -> Option<usize> {
    match unsigned_token(t) {
        Some(v) => if 0 <= v < 32 {
            Some(v as usize)
        } else {
            None
        },
        None => None,
    }
}

/// The message rejecting an address value that lies outside the store.
pub open spec fn addr_range_msg(v: int) -> Seq<char> {
    "Value passed output memory address: "@ + dec_str(v)
        + ", Baby memory address space is 32. "@
}

/// The text with which an address token is rejected: the normalised token
/// itself when it is no unsigned literal, and the range message when it
/// is one whose value lies outside the store.
pub open spec fn address_err_text(t: Seq<char>) -> Seq<char> {
    match unsigned_token(t) {
        Some(v) => if v > usize::MAX as int {
            norm_spec(t)
        } else {
            addr_range_msg(v)
        },
        None => norm_spec(t),
    }
}

/// Parses a register name from the characters of a token.
pub fn parse_register_chars(cs: &Vec<char>) -> (r: Result<Registers, String>)
    ensures
        match r {
            Ok(reg) => register_of(cs@) == Some(reg),
            Err(s) => register_of(cs@) is None && s@ == trim_spec(cs@),
        },
{
    let t = trimmed(cs);
    let n = lowered(&t);
    if eq_str(&n, "accumulator") {
        Ok(Registers::Accumulator)
    } else if eq_str(&n, "instruction") {
        Ok(Registers::Instruction)
    } else if eq_str(&n, "instructionaddress") {
        Ok(Registers::InstructionAddress)
    } else {
        Err(chars_to_string(&t))
    }
}

/// Parses a register name from a given string.
///
/// The name can be `accumulator`, `instruction` or `instructionaddress`,
/// case-insensitive; anything else is rejected with the original token,
/// trimmed, as the message.
pub fn parse_register(input: &str) -> (r: Result<Registers, String>)
    ensures
        match r {
            Ok(reg) => register_of(input@) == Some(reg),
            Err(s) => register_of(input@) is None && s@ == trim_spec(input@),
        },
{
    let cs = chars_of(input);
    parse_register_chars(&cs)
}

/// Parses comma-separated register names from a given string.
///
/// Returns the registers in the order given, or, for the first piece that
/// is no register name, that piece's own text, trimmed.
pub fn parse_registers(input: &str) -> (r: Result<Vec<Registers>, String>)
    ensures
        match r {
            Ok(v) => {
                let parts = split_commas_spec(input@);
                v@.len() == parts.len() && forall|i: int|
                    0 <= i < parts.len() ==> register_of(parts[i]) == Some(v@[i])
            },
            Err(s) => {
                let parts = split_commas_spec(input@);
                exists|j: int|
                    0 <= j < parts.len() && register_of(parts[j]) is None && (forall|
                        k: int,
                    | 0 <= k < j ==> register_of(parts[k]) is Some) && s@ == trim_spec(
                        parts[j],
                    )
            },
        },
{
    let cs = chars_of(input);
    let parts = split_commas(&cs);
    let ghost gparts = split_commas_spec(input@);
    let mut res: Vec<Registers> = Vec::new();
    let mut i: usize = 0;
    while i < parts.len()
        invariant
            i <= parts@.len(),
            gparts == split_commas_spec(input@),
            parts@.len() == gparts.len(),
            forall|j: int| 0 <= j < parts@.len() ==> parts@[j]@ == gparts[j],
            res@.len() == i,
            forall|j: int| 0 <= j < i ==> register_of(gparts[j]) == Some(res@[j]),
        decreases parts@.len() - i,
    {
        match parse_register_chars(&parts[i]) {
            Ok(reg) => {
                res.push(reg);
            },
            Err(e) => {
                proof {
                    let j = i as int;
                    assert(0 <= j < gparts.len());
                    assert(parts@[j]@ == gparts[j]);
                    assert(register_of(gparts[j]) is None);
                    assert(forall|k: int|
                        0 <= k < j ==> register_of(gparts[k]) is Some);
                    assert(e@ == trim_spec(gparts[j]));
                    assert(gparts == split_commas_spec(input@));
                }
                return Err(e);
            },
        }
        i = i + 1;
    }
    Ok(res)
}

/// Parses a memory address token from the characters of a token.
pub fn parse_memory_address_chars(cs: &Vec<char>) -> (r: Result<usize, String>)
    ensures
        match r {
            Ok(a) => address_of(cs@) == Some(a),
            Err(s) => address_of(cs@) is None && s@ == address_err_text(cs@),
        },
{
    let n = normalized(cs);
    match parse_unsigned_chars(&n, usize::MAX as u64) {
        Some(v) => {
            if v < 32 {
                Ok(v as usize)
            } else {
                let mut msg = String::new();
                msg.append("Value passed output memory address: ");
                let digits = dec_chars(v);
                msg.append(chars_to_string(&digits).as_str());
                msg.append(", Baby memory address space is 32. ");
                proof {
                    assert(msg@ =~= addr_range_msg(v as int));
                }
                Err(msg)
            }
        },
        None => Err(chars_to_string(&n)),
    }
}

/// Parses a memory address value from a given string.
///
/// The token can be hexadecimal, decimal, octal or binary, prefixed with
/// `0x`, `0d`, `0o` or `0b`; decimal needs no prefix.  Its value must lie
/// inside the machine's store: values of 32 and above are rejected with a
/// message naming the value, and anything that is no unsigned literal is
/// rejected with the normalised token.
pub fn parse_memory_address(value: &str) -> (r: Result<usize, String>)
    ensures
        match r {
            Ok(a) => address_of(value@) == Some(a) && a < 32,
            Err(s) => address_of(value@) is None && s@ == address_err_text(value@),
        },
{
    let cs = chars_of(value);
    parse_memory_address_chars(&cs)
}

/// Parses a memory value token from the characters of a token.
pub fn parse_memory_value_chars(cs: &Vec<char>) -> (r: Result<i32, String>)
    ensures
        match r {
            Ok(v) => word_token(cs@) == Some(v),
            Err(s) => word_token(cs@) is None && s@ == norm_spec(cs@),
        },
{
    let n = normalized(cs);
    match parse_word_chars(&n) {
        Some(v) => Ok(v),
        None => Err(chars_to_string(&n)),
    }
}

/// Parses a memory value from a given string.
///
/// The token can be hexadecimal, decimal, octal or binary, prefixed with
/// `0x`, `0d`, `0o` or `0b`, with an optional sign; decimal needs no
/// prefix.  The digits are reduced to a 32-bit two's-complement word.
pub fn parse_memory_value(value: &str) -> (r: Result<i32, String>)
    ensures
        match r {
            Ok(v) => word_token(value@) == Some(v),
            Err(s) => word_token(value@) is None && s@ == norm_spec(value@),
        },
{
    let cs = chars_of(value);
    parse_memory_value_chars(&cs)
}

/// Parses an instruction value token from the characters of a token.
pub fn parse_instruction_chars(cs: &Vec<char>) -> (r: Result<u16, String>)
    ensures
        match r {
            Ok(v) => unsigned_token(cs@) == Some(v as int),
            Err(s) => s@ == norm_spec(cs@) && match unsigned_token(cs@) {
                Some(v) => v > u16::MAX as int,
                None => true,
            },
        },
{
    let n = normalized(cs);
    match parse_unsigned_chars(&n, 0xFFFF) {
        Some(v) => Ok(v as u16),
        None => Err(chars_to_string(&n)),
    }
}

/// Parses an instruction register value from a given string.
///
/// The token can be hexadecimal, decimal, octal or binary, prefixed with
/// `0x`, `0d`, `0o` or `0b`; decimal needs no prefix.  The value must fit
/// the 16-bit register: overflow is an error, not a truncation.
pub fn parse_instruction(value: &str) -> (r: Result<u16, String>)
    ensures
        match r {
            Ok(v) => unsigned_token(value@) == Some(v as int),
            Err(s) => s@ == norm_spec(value@) && match unsigned_token(value@) {
                Some(v) => v > u16::MAX as int,
                None => true,
            },
        },
{
    let cs = chars_of(value);
    parse_instruction_chars(&cs)
}

/// Parses comma-separated memory address values from a given string.
///
/// Returns the addresses in the order given, or, for the first piece that
/// is no address inside the store, a message naming what was wrong with
/// it.
pub fn parse_memory_addresses(addresses: String) -> (r: Result<Vec<usize>, String>)
    ensures
        match r {
            Ok(v) => {
                let parts = split_commas_spec(trim_spec(addresses@));
                v@.len() == parts.len() && forall|i: int|
                    0 <= i < parts.len() ==> address_of(parts[i]) == Some(v@[i])
            },
            Err(s) => {
                let parts = split_commas_spec(trim_spec(addresses@));
                exists|j: int|
                    0 <= j < parts.len() && address_of(parts[j]) is None && (forall|
                        k: int,
                    | 0 <= k < j ==> address_of(parts[k]) is Some) && s@
                        == "Invalid value passed as output memory address `"@
                        + address_err_text(parts[j]) + "`. "@
            },
        },
{
    let cs = chars_of(addresses.as_str());
    let t = trimmed(&cs);
    let parts = split_commas(&t);
    let ghost gparts = split_commas_spec(trim_spec(addresses@));
    let mut res: Vec<usize> = Vec::new();
    let mut i: usize = 0;
    while i < parts.len()
        invariant
            i <= parts@.len(),
            gparts == split_commas_spec(trim_spec(addresses@)),
            parts@.len() == gparts.len(),
            forall|j: int| 0 <= j < parts@.len() ==> parts@[j]@ == gparts[j],
            res@.len() == i,
            forall|j: int| 0 <= j < i ==> address_of(gparts[j]) == Some(res@[j]),
        decreases parts@.len() - i,
    {
        match parse_memory_address_chars(&parts[i]) {
            Ok(a) => {
                res.push(a);
            },
            Err(e) => {
                let mut msg = String::new();
                msg.append("Invalid value passed as output memory address `");
                msg.append(e.as_str());
                msg.append("`. ");
                proof {
                    assert(msg@ =~= "Invalid value passed as output memory address `"@
                        + address_err_text(gparts[i as int]) + "`. "@);
                    let j = i as int;
                    assert(0 <= j < gparts.len());
                    assert(parts@[j]@ == gparts[j]);
                    assert(address_of(gparts[j]) is None);
                    assert(forall|k: int| 0 <= k < j ==> address_of(gparts[k]) is Some);
                    assert(msg@ == "Invalid value passed as output memory address `"@
                        + address_err_text(gparts[j]) + "`. "@);
                    assert(gparts == split_commas_spec(trim_spec(addresses@)));
                }
                return Err(msg);
            },
        }
        i = i + 1;
    }
    Ok(res)
}

} // verus!
