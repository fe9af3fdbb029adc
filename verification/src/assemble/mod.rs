use vstd::prelude::*;
use crate::args::Assemble;
use crate::errors::Errors;
use crate::interface::Interface;
use crate::machine::assemble_image;
use crate::run::ProgramStack;
use crate::text::concat2;
use errors::AsmErrors;
use errors::SrcFileErrors;

/// Possible errors reported during assembling.
pub mod errors;

verus! {

/// The four bytes of one signed word, most significant first: the word's
/// 32-bit pattern split big-endian, so that it can be stored in a file.
pub open spec fn word_bytes(word: i32) -> Seq<u8> {
    let u = (word as u32) as int;
    seq![
        ((u / 0x1000000) % 0x100) as u8,
        ((u / 0x10000) % 0x100) as u8,
        ((u / 0x100) % 0x100) as u8,
        (u % 0x100) as u8,
    ]
}

/// The bytes of a whole sequence of words, each split into its four
/// big-endian bytes, concatenated in order.
pub open spec fn data_bytes(data: Seq<i32>) -> Seq<u8>
    decreases data.len(),
{
    if data.len() == 0 {
        Seq::<u8>::empty()
    } else {
        word_bytes(data[0]) + data_bytes(data.skip(1))
    }
}

/// Takes a signed word and splits it into its four big-endian bytes, the
/// most significant byte at the front.
pub fn format_word(word: i32) -> (r: Vec<u8>)
    ensures
        r@ == word_bytes(word),
{
    let u: u32 = #[verifier::truncate] (word as u32);
    let mut r: Vec<u8> = Vec::new();
    r.push(((u / 0x1000000) % 0x100) as u8);
    r.push(((u / 0x10000) % 0x100) as u8);
    r.push(((u / 0x100) % 0x100) as u8);
    r.push((u % 0x100) as u8);
    proof {
        assert(r@ =~= word_bytes(word));
    }
    r
}

/// Takes a sequence of words and formats each one into its four
/// big-endian bytes, flattened into one continuous byte stream for
/// storage in a file.
pub fn format_data(data: Vec<i32>) -> (r: Vec<u8>)
    ensures
        r@ == data_bytes(data@),
{
    let mut r: Vec<u8> = Vec::new();
    let mut i: usize = 0;
    proof {
        assert(data@.skip(0) =~= data@);
        assert(r@ + data_bytes(data@) =~= data_bytes(data@));
    }
    while i < data.len()
        invariant
            i <= data@.len(),
            r@ + data_bytes(data@.skip(i as int)) == data_bytes(data@),
        decreases data@.len() - i,
    {
        proof {
            assert(data@.skip(i as int)[0] == data@[i as int]);
            assert(data@.skip(i as int).skip(1) =~= data@.skip(i as int + 1));
        }
        let mut piece = format_word(data[i]);
        r.append(&mut piece);
        proof {
            assert(r@ + data_bytes(data@.skip(i as int + 1)) =~= data_bytes(data@));
        }
        i = i + 1;
    }
    proof {
        assert(data@.skip(data@.len() as int) =~= Seq::<i32>::empty());
        assert(r@ =~= data_bytes(data@));
    }
    r
}

/// Reads a source file through the interface and assembles it into a
/// program image plus the tag definitions the assembler found; what the
/// read text yields is pinned by the assembler service's `image_of`.
fn load_assembly<I: Interface>(source: &String, og_notation: bool, interface: &I) -> (r:
    Result<(ProgramStack, Vec<(String, i32)>), AsmErrors>)
    ensures
        match r {
            Ok(p) => p.0@.len() == 32,
            Err(e) => e is SrcFileError || e is AssembleError,
        },
{
    let text = match interface.read_fs_string(source) {
        Ok(v) => v,
        Err(_) => {
            return Err(AsmErrors::SrcFileError(SrcFileErrors::CouldntOpenFile(source.clone())));
        },
    };
    match assemble_image(&text, og_notation) {
        Ok(p) => Ok(p),
        Err(e) => Err(AsmErrors::AssembleError(e)),
    }
}

/// Formats a program image as bytes and writes it to the configured
/// output file, or to the input path with `.bin` appended when none is
/// configured.
pub fn write_to_file<I: Interface>(data: ProgramStack, conf: &Assemble, interface: &I) -> (r:
    Result<(), AsmErrors>)
{
    let out: String = match &conf.output {
        Some(v) => v.clone(),
        None => concat2(conf.input.as_str(), ".bin"),
    };
    let d = format_data(data);
    match interface.write_fs_bytes(d, &out) {
        Ok(_) => Ok(()),
        Err(_) => Err(AsmErrors::SrcFileError(SrcFileErrors::CouldNotWriteToFile(out))),
    }
}

/// Serialises the tag definitions the assembler found as JSON and writes
/// them to the configured tags file; when no tags file is named, nothing
/// is written and nothing can fail.
pub fn write_tags_to_file<I: Interface>(
    tags: Vec<(String, i32)>,
    conf: &Assemble,
    interface: &I,
) -> (r: Result<(), AsmErrors>)
    ensures
        conf.tags is None ==> r is Ok,
        r is Err ==> r->Err_0 is SrcFileError,
{
    let file_path: &String = match &conf.tags {
        Some(path) => path,
        None => {
            return Ok(());
        },
    };
    let json = match crate::machine::tags_to_json(tags) {
        Ok(v) => v,
        Err(e) => {
            return Err(AsmErrors::SrcFileError(SrcFileErrors::FailedToSerialiseTags(e)));
        },
    };
    match interface.write_fs_string(json, file_path) {
        Ok(_) => Ok(()),
        Err(_) => Err(
            AsmErrors::SrcFileError(SrcFileErrors::CouldNotWriteToFile(file_path.clone())),
        ),
    }
}

/// Reads an assembly source through the interface, assembles it, and
/// writes the binary image, and the tag definitions where asked for, back
/// through the interface.
pub fn assemble<I: Interface>(conf: Assemble, interface: &I) -> (r: Result<(), Errors>)
    ensures
        r is Err ==> r->Err_0 is AsmError,
{
    let loaded = match load_assembly(&conf.input, conf.og_notation, interface) {
        Ok(p) => p,
        Err(e) => {
            return Err(Errors::AsmError(e));
        },
    };
    let (bin, tags) = loaded;
    if let Err(e) = write_to_file(bin, &conf, interface) {
        return Err(Errors::AsmError(e));
    }
    match write_tags_to_file(tags, &conf, interface) {
        Ok(_) => Ok(()),
        Err(e) => Err(Errors::AsmError(e)),
    }
}

} // verus!
