use vstd::prelude::*;
use crate::text::concat2;
use crate::text::concat3;

verus! {

/// Common behaviour of errors reported while assembling: each one can
/// describe itself, and the description is pinned by `describe_spec`.
pub trait AsmError {
    /// The text the error describes itself with.
    spec fn describe_spec(&self) -> Seq<char>;

    /// A helper string describing the error.
    fn describe(&self) -> (r: String)
        ensures
            r@ == self.describe_spec(),
    ;
}

/// Errors reported when accessing a file during assembling.
pub enum SrcFileErrors {
    /// The source file could not be read; holds its path.
    CouldntOpenFile(String),
    /// The output file could not be written; holds its path.
    CouldNotWriteToFile(String),
    /// The generated tag definitions could not be serialised; holds the
    /// serialiser's description of what went wrong.
    FailedToSerialiseTags(String),
}

impl AsmError for SrcFileErrors {
    open spec fn describe_spec(&self) -> Seq<char> {
        match self {
            SrcFileErrors::CouldntOpenFile(s) => "Couldn't open assembly source file: `"@
                + s@ + "`."@,
            SrcFileErrors::CouldNotWriteToFile(s) => "Couldn't write assembled data to file: `"@
                + s@ + "`."@,
            SrcFileErrors::FailedToSerialiseTags(s) => "Failed to serialise the generated tag definitions with:  `"@
                + s@ + "`."@,
        }
    }

    fn describe(&self) -> (r: String)
        ensures
            r@ == self.describe_spec(),
    {
        match self {
            SrcFileErrors::CouldntOpenFile(s) => concat3(
                "Couldn't open assembly source file: `",
                s.as_str(),
                "`.",
            ),
            SrcFileErrors::CouldNotWriteToFile(s) => concat3(
                "Couldn't write assembled data to file: `",
                s.as_str(),
                "`.",
            ),
            SrcFileErrors::FailedToSerialiseTags(s) => concat3(
                "Failed to serialise the generated tag definitions with:  `",
                s.as_str(),
                "`.",
            ),
        }
    }
}

/// Errors reported while assembling a source file.
pub enum AsmErrors {
    /// An error accessing a file.
    SrcFileError(SrcFileErrors),
    /// The assembler service rejected the source; holds its description
    /// of what went wrong.
    AssembleError(String),
}

impl AsmError for AsmErrors {
    open spec fn describe_spec(&self) -> Seq<char> {
        match self {
            AsmErrors::AssembleError(s) => "Problem assembling file. \n"@ + s@,
            AsmErrors::SrcFileError(s) => "Issue accessing a file. \n"@ + s.describe_spec(),
        }
    }

    fn describe(&self) -> (r: String)
        ensures
            r@ == self.describe_spec(),
    {
        match self {
            AsmErrors::AssembleError(s) => concat2("Problem assembling file. \n", s.as_str()),
            AsmErrors::SrcFileError(s) => {
                let inner = s.describe();
                concat2("Issue accessing a file. \n", inner.as_str())
            },
        }
    }
}

} // verus!
