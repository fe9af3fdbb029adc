use vstd::prelude::*;
use vstd::string::StringExecFns;
use crate::render::dec_chars;
use crate::render::dec_str;
use crate::text::chars_to_string;
use crate::text::concat2;

verus! {

/// Common behaviour of all errors reported at run time: each one can
/// describe itself, and the description is pinned by `describe_spec`.
pub trait RunError {
    /// The text the error describes itself with.
    spec fn describe_spec(&self) -> Seq<char>;

    /// A helper string describing the error.
    fn describe(&self) -> (r: String)
        ensures
            r@ == self.describe_spec(),
    ;
}

/// Errors reported while reading the program source.
pub enum SrcFileErrors {
    /// The source file could not be opened; holds its path.
    CouldntOpenFile(String),
    /// A binary file was of the wrong length; holds that length in
    /// bytes.
    BinFileWrongLen(usize),
    /// The source file could not be assembled; holds the assembler
    /// service's description of what went wrong.
    AssembleError(String),
}

impl RunError for SrcFileErrors {
    open spec fn describe_spec(&self) -> Seq<char> {
        match self {
            SrcFileErrors::CouldntOpenFile(s) => "Could not open source assembly/binary file: `"@
                + s@ + "`."@,
            SrcFileErrors::BinFileWrongLen(n) => "The baby memory is 32 words long, specified file is `"@
                + dec_str((*n / 4) as int) + "` words long. "@,
            SrcFileErrors::AssembleError(s) => "Error assembling source file. \n"@ + s@,
        }
    }

    fn describe(&self) -> (r: String)
        ensures
            r@ == self.describe_spec(),
    {
        match self {
            SrcFileErrors::CouldntOpenFile(s) => {
                let mut msg = String::new();
                msg.append("Could not open source assembly/binary file: `");
                msg.append(s.as_str());
                msg.append("`.");
                proof {
                    assert(msg@ =~= self.describe_spec());
                }
                msg
            },
            SrcFileErrors::BinFileWrongLen(n) => {
                let words = dec_chars((*n / 4) as u64);
                let words_s = chars_to_string(&words);
                let mut msg = String::new();
                msg.append("The baby memory is 32 words long, specified file is `");
                msg.append(words_s.as_str());
                msg.append("` words long. ");
                proof {
                    assert(msg@ =~= self.describe_spec());
                }
                msg
            },
            SrcFileErrors::AssembleError(s) => concat2(
                "Error assembling source file. \n",
                s.as_str(),
            ),
        }
    }
}

/// All the possible errors encountered at run time.
pub enum RunErrors {
    /// An error encountered getting the source file.
    SrcFileError(SrcFileErrors),
}

impl RunError for RunErrors {
    open spec fn describe_spec(&self) -> Seq<char> {
        match self {
            RunErrors::SrcFileError(s) => s.describe_spec(),
        }
    }

    fn describe(&self) -> (r: String)
        ensures
            r@ == self.describe_spec(),
    {
        match self {
            RunErrors::SrcFileError(s) => s.describe(),
        }
    }
}

} // verus!
