use vstd::prelude::*;
use crate::args::Run;
use crate::interface::Interface;
use crate::machine::HALT_OPCODE;
use crate::machine::MachineState;
use crate::run::output::output_model;
use crate::text::chars_of;
use crate::text::chars_to_string;
use crate::text::normalized;

/// Helpers for parsing and dispatching debug commands.
pub mod commands;
/// Helpers for parsing and acting on modifying debug commands.
pub mod modify;
/// Helpers for parsing and acting on printing debug commands.
pub mod print;
/// General parsing helpers for debug commands.
pub mod utils;

verus! {

/// The result of a debug session: execution either resumes, performs a
/// single instruction and debugs again, or ends.
pub enum DebugResult {
    /// Continue execution.
    Continue(MachineState, Run),
    /// Perform the next instruction, then debug again.
    SingleStep(MachineState, Run),
    /// End execution and exit.
    End(MachineState, Run),
}

/// Runs a debug session for the given machine and configuration: prints
/// the configured watches, then reads and dispatches one command line at
/// a time until a control verb decides how to go on.
///
/// A line starting with `c` resumes, one starting with `n` single-steps,
/// and one starting with `e` ends execution, which loads the halt opcode
/// into the instruction register; every other line goes to the command
/// dispatcher, whose failures only warn.  The session handles as many
/// lines as a 64-bit counter can count, and resumes execution should that
/// ever run out.
pub fn check_debug_session<I: Interface>(model: &MachineState, conf: &Run, iface: &I) -> (r:
    DebugResult)
    requires
        model.wf(),
        conf.wf(),
    ensures
        match r {
            DebugResult::Continue(m, c) => m.wf() && c.wf(),
            DebugResult::SingleStep(m, c) => m.wf() && c.wf(),
            DebugResult::End(m, c) => m.wf() && c.wf() && m@.instruction == HALT_OPCODE,
        },
{
    iface.log_msg("Debug".to_owned());
    proof {
        assert(forall|k: int|
            0 <= k < conf.output_addr@.len() ==> conf@.output_addr[k] < 32);
    }
    output_model(&conf.output_regs, &conf.output_addr, conf.output_model, model, iface);
    let mut model = model.clone();
    let mut conf = conf.clone();
    let mut fuel: u64 = 0xFFFF_FFFF_FFFF_FFFF;
    while fuel > 0
        invariant
            model.wf(),
            conf.wf(),
        decreases fuel,
    {
        iface.log_inline("(ssemu-debug) ".to_owned());
        let line = iface.get_line();
        let cs = chars_of(line.as_str());
        let n = normalized(&cs);
        if n.len() > 0 && n[0] == 'c' {
            return DebugResult::Continue(model, conf);
        }
        if n.len() > 0 && n[0] == 'n' {
            return DebugResult::SingleStep(model, conf);
        }
        if n.len() > 0 && n[0] == 'e' {
            model.instruction = HALT_OPCODE;
            return DebugResult::End(model, conf);
        }
        let dispatched = commands::match_debug_command(
            chars_to_string(&n),
            &conf,
            &model,
            iface,
        );
        model = dispatched.0;
        conf = dispatched.1;
        fuel = fuel - 1;
    }
    DebugResult::Continue(model, conf)
}

} // verus!
