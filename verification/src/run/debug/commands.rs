use vstd::prelude::*;
use crate::args::Run;
use crate::args::RunView;
use crate::interface::Interface;
use crate::machine::MachineState;
use crate::machine::MachineView;
use crate::run::debug::modify::modify;
use crate::run::debug::modify::parse_set_outcome;
use crate::run::debug::print::print;
use crate::text::chars_of;
use crate::text::chars_to_string;
use crate::text::concat3;
use crate::text::eq_str;
use crate::text::find_char;
use crate::text::norm_spec;
use crate::text::normalized;
use crate::text::sub_chars;
use crate::text::until_char;

verus! {

/// A help message with a list of debug commands.
pub const HELP: &'static str = "Possible commands:

p, print - Print the value of a register, memory location(s) (use `print help`).
s, set - Set a memory locations, registers, breakpoints, or memorylocation/register to print on debug (use `set help`).
n, next - Perform the next instruction and debug.
c, continue - Continue execution.
e, end - End execution.
h, help - Print this help command";

/// What dispatching one command line does to the machine and the
/// configuration: only a set command can change them, and a failed or
/// unknown command leaves both exactly as they were.
pub open spec fn dispatch_outcome(cmd: Seq<char>, m: MachineView, c: RunView) -> (
    MachineView,
    RunView,
) {
    let n = norm_spec(cmd);
    let i = until_char(n, ' ');
    let verb = n.take(i);
    let tail = n.skip(i);
    if verb == "s"@ || verb == "set"@ {
        match parse_set_outcome(tail, m, c) {
            Ok(p) => p,
            Err(e) => (m, c),
        }
    } else {
        (m, c)
    }
}

/// Finds a matching debug command and dispatches the relevant actions:
/// `s`/`set` to the mutators, `p`/`print` to the accessors, `h`, `help`
/// or an empty line to the help text, and anything else to a warning
/// naming the verb.
pub fn match_debug_command<I: Interface>(
    command: String,
    conf: &Run,
    model: &MachineState,
    iface: &I,
) -> (r: (MachineState, Run))
    requires
        model.wf(),
        conf.wf(),
    ensures
        (r.0@, r.1@) == dispatch_outcome(command@, model@, conf@),
        r.0.wf(),
        r.1.wf(),
{
    let cs = chars_of(command.as_str());
    let n = normalized(&cs);
    let i = find_char(&n, ' ');
    let verb = sub_chars(&n, 0, i);
    let tail = sub_chars(&n, i, n.len());
    proof {
        assert(verb@ == norm_spec(command@).take(i as int));
        assert(tail@ == norm_spec(command@).skip(i as int));
    }
    if eq_str(&verb, "s") || eq_str(&verb, "set") {
        modify(chars_to_string(&tail), conf, model, iface)
    } else if eq_str(&verb, "p") || eq_str(&verb, "print") {
        print(chars_to_string(&tail), conf, model, iface);
        (model.clone(), conf.clone())
    } else if eq_str(&verb, "") || eq_str(&verb, "h") || eq_str(&verb, "help") {
        iface.log_msg(HELP.to_owned());
        (model.clone(), conf.clone())
    } else {
        let verb_s = chars_to_string(&verb);
        iface.log_warn(concat3(
            "No such command as `",
            verb_s.as_str(),
            "`, use help for a list of commands. ",
        ));
        (model.clone(), conf.clone())
    }
}

} // verus!
