use vstd::prelude::*;
use crate::args::ExecuteFrom;
use crate::args::Run;
use crate::interface::Interface;
use crate::machine::assemble_image;
use crate::run::ProgramStack;
use crate::run::errors::RunErrors;
use crate::run::errors::SrcFileErrors;

verus! {

/// The byte of a stream at one position, with every position past its
/// end reading as zero.
pub open spec fn byte_at(raw: Seq<u8>, j: int) -> int {
    if 0 <= j < raw.len() {
        raw[j] as int
    } else {
        0
    }
}

/// The signed word stored big-endian in the four bytes of a stream at
/// word position `i`: the most significant byte comes first, and bytes
/// past the end of the stream read as zero.
pub open spec fn word_at(raw: Seq<u8>, i: int) -> i32 {
    ((byte_at(raw, 4 * i) * 0x1000000 + byte_at(raw, 4 * i + 1) * 0x10000 + byte_at(
        raw,
        4 * i + 2,
    ) * 0x100 + byte_at(raw, 4 * i + 3)) as u32) as i32
}

pub proof fn lemma_data_bytes_len(data: Seq<i32>)
    ensures
        crate::assemble::data_bytes(data).len() == 4 * data.len(),
    decreases data.len(),
{
    if data.len() > 0 {
        lemma_data_bytes_len(data.skip(1));
    }
}

pub proof fn lemma_data_bytes_index(data: Seq<i32>, k: int, j: int)
    requires
        0 <= k < data.len(),
        0 <= j < 4,
    ensures
        crate::assemble::data_bytes(data).len() == 4 * data.len(),
        crate::assemble::data_bytes(data)[4 * k + j] == crate::assemble::word_bytes(
            data[k],
        )[j],
    decreases k,
{
    lemma_data_bytes_len(data);
    if k == 0 {
    } else {
        lemma_data_bytes_index(data.skip(1), k - 1, j);
        assert(data.skip(1)[k - 1] == data[k]);
    }
}

pub proof fn lemma_word_bytes_recompose(w: i32)
    ensures
        ({
            let b = crate::assemble::word_bytes(w);
            (b[0] as int) * 0x1000000 + (b[1] as int) * 0x10000 + (b[2] as int) * 0x100 + (
            b[3] as int) == ((w as u32) as int)
        }),
{
    let u: u32 = w as u32;
    assert(((u / 0x1000000) % 0x100) * 0x1000000 + ((u / 0x10000) % 0x100) * 0x10000 + ((u
        / 0x100) % 0x100) * 0x100 + (u % 0x100) == u) by (bit_vector);
}

/// The formatted bytes of a program image read back word for word: the
/// word decoded at position `k` of the byte stream that `data_bytes`
/// yields is exactly the `k`-th word the image held.
pub proof fn lemma_image_round_trip(data: Seq<i32>, k: int)
    requires
        0 <= k < data.len(),
    ensures
        word_at(crate::assemble::data_bytes(data), k) == data[k],
{
    let s = crate::assemble::data_bytes(data);
    let b = crate::assemble::word_bytes(data[k]);
    lemma_data_bytes_index(data, k, 0);
    lemma_data_bytes_index(data, k, 1);
    lemma_data_bytes_index(data, k, 2);
    lemma_data_bytes_index(data, k, 3);
    lemma_word_bytes_recompose(data[k]);
    assert(byte_at(s, 4 * k) == b[0] as int);
    assert(byte_at(s, 4 * k + 1) == b[1] as int);
    assert(byte_at(s, 4 * k + 2) == b[2] as int);
    assert(byte_at(s, 4 * k + 3) == b[3] as int);
    let w = data[k];
    assert(((w as u32) as u32) as i32 == w) by (bit_vector);
}

/// Reads the `i`-th big-endian word of four bytes from a byte stream;
/// missing bytes read as zero.
pub fn read_word(raw: &Vec<u8>, i: usize) -> (r: i32)
    requires
        i < 0x4000_0000,
    ensures
        r == word_at(raw@, i as int),
{
    let b0: u32 = if 4 * i < raw.len() {
        raw[4 * i] as u32
    } else {
        0
    };
    let b1: u32 = if 4 * i + 1 < raw.len() {
        raw[4 * i + 1] as u32
    } else {
        0
    };
    let b2: u32 = if 4 * i + 2 < raw.len() {
        raw[4 * i + 2] as u32
    } else {
        0
    };
    let b3: u32 = if 4 * i + 3 < raw.len() {
        raw[4 * i + 3] as u32
    } else {
        0
    };
    let u: u32 = b0 * 0x1000000 + b1 * 0x10000 + b2 * 0x100 + b3;
    #[verifier::truncate] (u as i32)
}

/// Reads groups of four bytes into the 32 big-endian words of a program
/// image; missing bytes read as zero.
pub fn read_words(raw: Vec<u8>) -> (r: ProgramStack)
    ensures
        r@.len() == 32,
        forall|k: int| 0 <= k < 32 ==> r@[k] == word_at(raw@, k),
{
    let mut r: Vec<i32> = Vec::new();
    let mut i: usize = 0;
    while i < 32
        invariant
            i <= 32,
            r@.len() == i,
            forall|k: int| 0 <= k < i ==> r@[k] == word_at(raw@, k),
        decreases 32 - i,
    {
        r.push(read_word(&raw, i));
        i = i + 1;
    }
    r
}

/// Fits the bytes of a binary file into a program image: only a file of
/// exactly the machine's 128 bytes is accepted, decoded as 32 big-endian
/// words, and any other length is rejected with that length.
pub fn image_from_bytes(raw: Vec<u8>) -> (r: Result<ProgramStack, SrcFileErrors>)
    ensures
        match r {
            Ok(v) => raw@.len() == 128 && v@.len() == 32 && forall|k: int|
                0 <= k < 32 ==> v@[k] == word_at(raw@, k),
            Err(e) => raw@.len() != 128 && e is BinFileWrongLen && e->BinFileWrongLen_0
                == raw@.len(),
        },
{
    if raw.len() != 128 {
        return Err(SrcFileErrors::BinFileWrongLen(raw.len()));
    }
    Ok(read_words(raw))
}

/// Reads a binary file through the interface and fits it into a program
/// image; what the read bytes yield is pinned by `image_from_bytes`.
fn from_bin<I: Interface>(source: &String, interface: &I) -> (r: Result<
    ProgramStack,
    SrcFileErrors,
>)
    ensures
        match r {
            Ok(v) => v@.len() == 32,
            Err(e) => e is CouldntOpenFile || e is BinFileWrongLen,
        },
{
    let raw = match interface.read_fs_bytes(source) {
        Ok(v) => v,
        Err(_) => {
            return Err(SrcFileErrors::CouldntOpenFile(source.clone()));
        },
    };
    image_from_bytes(raw)
}

/// Reads an assembly file through the interface and assembles it into a
/// program image; what the read text yields is pinned by the assembler
/// service's `image_of`.
fn from_assembly<I: Interface>(source: &String, og_notation: bool, interface: &I) -> (r:
    Result<ProgramStack, SrcFileErrors>)
    ensures
        match r {
            Ok(v) => v@.len() == 32,
            Err(e) => e is CouldntOpenFile || e is AssembleError,
        },
{
    let text = match interface.read_fs_string(source) {
        Ok(v) => v,
        Err(_) => {
            return Err(SrcFileErrors::CouldntOpenFile(source.clone()));
        },
    };
    match assemble_image(&text, og_notation) {
        Ok(p) => Ok(p.0),
        Err(e) => Err(SrcFileErrors::AssembleError(e)),
    }
}

/// Gets the program image named by the configuration through the given
/// interface, from a binary dump or from an assembly source as
/// configured.
pub fn get_src<I: Interface>(config: &Run, interface: &I) -> (r: Result<
    ProgramStack,
    RunErrors,
>)
    ensures
        match r {
            Ok(v) => v@.len() == 32,
            Err(e) => true,
        },
{
    let loaded = match config.exe_from {
        ExecuteFrom::Asm => from_assembly(&config.src, config.og_notation, interface),
        ExecuteFrom::Bin => from_bin(&config.src, interface),
    };
    match loaded {
        Ok(v) => Ok(v),
        Err(e) => Err(RunErrors::SrcFileError(e)),
    }
}

} // verus!
