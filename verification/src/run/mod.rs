use vstd::prelude::*;
use crate::args::Run;
use crate::errors::Errors;
use crate::interface::Interface;

/// Helpers for debugging a running machine.
pub mod debug;
/// Possible errors encountered during a run.
pub mod errors;
/// Helpers for executing a machine.
pub mod execution;
/// Helpers for outputting the machine.
pub mod output;
/// Helpers for retrieving the source data.
pub mod srcfile;

verus! {

/// A program image: the machine's store, one signed word per memory
/// address.
pub type ProgramStack = Vec<i32>;

/// Gets a program image from the configured source and executes it.
///
/// Returns an error exactly when the source could not be loaded; the run
/// itself ends only through the halt condition or the debug session.
pub fn execute<I: Interface>(args: Run, interface: &I) -> (r: Result<(), Errors>)
    requires
        args.wf(),
    ensures
        r is Err ==> r->Err_0 is RuntimeError,
{
    let src = match srcfile::get_src(&args, interface) {
        Ok(v) => v,
        Err(e) => {
            return Err(Errors::RuntimeError(e));
        },
    };
    execution::run_model(args, src, interface);
    Ok(())
}

} // verus!
