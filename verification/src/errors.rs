use vstd::prelude::*;
use crate::assemble::errors::AsmError;
use crate::assemble::errors::AsmErrors;
use crate::run::errors::RunError;
use crate::run::errors::RunErrors;

verus! {

/// All the possible errors reported while the program runs.
pub enum Errors {
    /// An error encountered executing the emulation.
    RuntimeError(RunErrors),
    /// An error encountered assembling a source file.
    AsmError(AsmErrors),
}

impl Errors {
    /// The text the error describes itself with.
    pub open spec fn describe_spec(&self) -> Seq<char> {
        match self {
            Errors::AsmError(v) => v.describe_spec(),
            Errors::RuntimeError(v) => v.describe_spec(),
        }
    }

    /// Gets a helper string describing an error.
    pub fn describe(&self) -> (r: String)
        ensures
            r@ == self.describe_spec(),
    {
        match self {
            Errors::AsmError(v) => v.describe(),
            Errors::RuntimeError(v) => v.describe(),
        }
    }
}

} // verus!
