use vstd::prelude::*;
use crate::args::Registers;
use crate::args::Run;
use crate::args::RunView;
use crate::args::run_wf;
use crate::interface::Interface;
use crate::literals::unsigned_token;
use crate::literals::word_token;
use crate::machine::MachineState;
use crate::machine::MachineView;
use crate::machine::machine_wf;
use crate::machine::view_with_accumulator;
use crate::machine::view_with_ir;
use crate::machine::view_with_store_word;
use crate::sets::add_elem;
use crate::sets::add_or_remove;
use crate::sets::remove_elem;
use crate::text::chars_of;
use crate::text::chars_to_string;
use crate::text::concat3;
use crate::text::eq_str;
use crate::text::find_char;
use crate::text::norm_spec;
use crate::text::sub_chars;
use crate::text::trim_spec;
use crate::text::trimmed;
use crate::text::until_char;
use crate::run::debug::utils::address_err_text;
use crate::run::debug::utils::address_of;
use crate::run::debug::utils::parse_instruction_chars;
use crate::run::debug::utils::parse_memory_address_chars;
use crate::run::debug::utils::parse_memory_value_chars;
use crate::run::debug::utils::parse_register_chars;
use crate::run::debug::utils::register_of;

verus! {

/// The help message printed for a list of set commands.
pub const SET_HELP_MSG: &'static str = "Possible sub-commands:

reg accumulator/instruction/instructionaddress 0x10 - Set a register to a given value.
mem 0x10 0x10 - Set a memory location to a given value (address value).
debug-addrs +/- 0x10 - Add/remove a memory address to print on debug.
break-addrs +/- 0x10 - Add/remove a memory address to debug when hit.
debug-regs +/- accumulator/instruction/instructionaddress - Add/remove a register to print on debug.
h, help - Print this help message. ";

/// The message rejecting a register or memory value token.
pub open spec fn value_err(value: Seq<char>) -> Seq<char> {
    "Invalid value: `"@ + norm_spec(value) + "`. "@
}

/// What setting one of the two instruction registers to a value token
/// does: the register is replaced when the token is an unsigned literal
/// that fits 16 bits, and the command is rejected otherwise.
pub open spec fn set_ir_outcome(value: Seq<char>, address: bool, m: MachineView) -> Result<
    MachineView,
    Seq<char>,
> {
    match unsigned_token(value) {
        Some(v) => if v <= u16::MAX as int {
            Ok(view_with_ir(m, address, v as u16))
        } else {
            Err(value_err(value))
        },
        None => Err(value_err(value)),
    }
}

/// What setting the accumulator to a value token does: the accumulator is
/// replaced when the token is a word literal, and the command is rejected
/// otherwise.
pub open spec fn set_accumulator_outcome(value: Seq<char>, m: MachineView) -> Result<
    MachineView,
    Seq<char>,
> {
    match word_token(value) {
        Some(v) => Ok(view_with_accumulator(m, v)),
        None => Err(value_err(value)),
    }
}

/// What a `reg <name> <value>` tail does to the machine: exactly the
/// named register is replaced, under the value rules of that register,
/// and any failure leaves the machine untouched.
pub open spec fn set_register_outcome(cmd: Seq<char>, m: MachineView) -> Result<
    MachineView,
    Seq<char>,
> {
    let t = trim_spec(cmd);
    let i = until_char(t, ' ');
    if i == t.len() {
        Err("Please specify a register and a value. "@)
    } else {
        let regtok = t.take(i);
        let valtok = t.skip(i);
        match register_of(regtok) {
            Some(Registers::Accumulator) => set_accumulator_outcome(valtok, m),
            Some(Registers::Instruction) => set_ir_outcome(valtok, false, m),
            Some(Registers::InstructionAddress) => set_ir_outcome(valtok, true, m),
            None => Err("No such register `"@ + regtok + "`"@),
        }
    }
}

/// What a `mem <address> <value>` tail does to the machine: exactly the
/// addressed store word is replaced, and any failure leaves the machine
/// untouched.
pub open spec fn set_memory_outcome(cmd: Seq<char>, m: MachineView) -> Result<
    MachineView,
    Seq<char>,
> {
    let t = trim_spec(cmd);
    let i = until_char(t, ' ');
    if i == t.len() {
        Err("Please specify a memory address and a value. "@)
    } else {
        let addrtok = t.take(i);
        let valtok = t.skip(i);
        match address_of(addrtok) {
            Some(a) => match word_token(valtok) {
                Some(v) => Ok(view_with_store_word(m, a as int, v)),
                None => Err(value_err(valtok)),
            },
            None => Err("Invalid memory address: `"@ + address_err_text(addrtok) + "`. "@),
        }
    }
}

/// Sets the instruction register, or the instruction address register, of
/// the passed machine to a parsed value.
///
/// The untouched fields of the result are exactly those of the input; a
/// value that is no 16-bit unsigned literal is rejected and nothing is
/// changed.
pub fn set_instruction_reg(value: &String, address: bool, model: &MachineState) -> (r:
    Result<MachineState, String>)
    ensures
        match r {
            Ok(m2) => set_ir_outcome(value@, address, model@) == Ok::<_, Seq<char>>(m2@),
            Err(s) => set_ir_outcome(value@, address, model@) == Err::<MachineView, _>(
                s@,
            ),
        },
{
    let cs = chars_of(value.as_str());
    match parse_instruction_chars(&cs) {
        Ok(v) => {
            let mut m2 = model.clone();
            if address {
                m2.instruction_address = v;
            } else {
                m2.instruction = v;
            }
            Ok(m2)
        },
        Err(e) => Err(concat3("Invalid value: `", e.as_str(), "`. ")),
    }
}

/// Sets the accumulator of the passed machine to a parsed value.
///
/// The untouched fields of the result are exactly those of the input; a
/// value that is no word literal is rejected and nothing is changed.
pub fn set_accumulator(value: &String, model: &MachineState) -> (r: Result<
    MachineState,
    String,
>)
    ensures
        match r {
            Ok(m2) => set_accumulator_outcome(value@, model@) == Ok::<_, Seq<char>>(m2@),
            Err(s) => set_accumulator_outcome(value@, model@) == Err::<MachineView, _>(
                s@,
            ),
        },
{
    let cs = chars_of(value.as_str());
    match parse_memory_value_chars(&cs) {
        Ok(v) => {
            let mut m2 = model.clone();
            m2.accumulator = v;
            Ok(m2)
        },
        Err(e) => Err(concat3("Invalid value: `", e.as_str(), "`. ")),
    }
}

/// Sets the register named in the command to the value that follows it.
///
/// The command is `<name> <value>`; a missing value, an unknown register
/// name or a bad value is rejected with a message saying so, and nothing
/// is changed.
pub fn set_register(command: String, model: &MachineState) -> (r: Result<
    MachineState,
    String,
>)
    ensures
        match r {
            Ok(m2) => set_register_outcome(command@, model@) == Ok::<_, Seq<char>>(m2@),
            Err(s) => set_register_outcome(command@, model@) == Err::<MachineView, _>(
                s@,
            ),
        },
{
    let cs = chars_of(command.as_str());
    let t = trimmed(&cs);
    let i = find_char(&t, ' ');
    if i == t.len() {
        return Err("Please specify a register and a value. ".to_owned());
    }
    let regtok = sub_chars(&t, 0, i);
    let valtok = sub_chars(&t, i, t.len());
    proof {
        assert(regtok@ == trim_spec(command@).take(i as int));
        assert(valtok@ == trim_spec(command@).skip(i as int));
    }
    let value = chars_to_string(&valtok);
    match parse_register_chars(&regtok) {
        Ok(Registers::Accumulator) => set_accumulator(&value, model),
        Ok(Registers::Instruction) => set_instruction_reg(&value, false, model),
        Ok(Registers::InstructionAddress) => set_instruction_reg(&value, true, model),
        Err(_) => {
            let rawtok = chars_to_string(&regtok);
            Err(concat3("No such register `", rawtok.as_str(), "`"))
        },
    }
}

/// Sets the addressed store word to the value that follows it.
///
/// The command is `<address> <value>`; a missing value, an address
/// outside the store or a bad value is rejected with a message saying so,
/// and nothing is changed.
pub fn set_memory_address(command: String, model: &MachineState) -> (r: Result<
    MachineState,
    String,
>)
    requires
        model.wf(),
    ensures
        match r {
            Ok(m2) => set_memory_outcome(command@, model@) == Ok::<_, Seq<char>>(m2@)
                && m2.wf(),
            Err(s) => set_memory_outcome(command@, model@) == Err::<MachineView, _>(s@),
        },
{
    let cs = chars_of(command.as_str());
    let t = trimmed(&cs);
    let i = find_char(&t, ' ');
    if i == t.len() {
        return Err("Please specify a memory address and a value. ".to_owned());
    }
    let addrtok = sub_chars(&t, 0, i);
    let valtok = sub_chars(&t, i, t.len());
    proof {
        assert(addrtok@ == trim_spec(command@).take(i as int));
        assert(valtok@ == trim_spec(command@).skip(i as int));
    }
    let address: usize = match parse_memory_address_chars(&addrtok) {
        Ok(a) => a,
        Err(e) => {
            return Err(concat3("Invalid memory address: `", e.as_str(), "`. "));
        },
    };
    let value: i32 = match parse_memory_value_chars(&valtok) {
        Ok(v) => v,
        Err(e) => {
            return Err(concat3("Invalid value: `", e.as_str(), "`. "));
        },
    };
    let mut m2 = model.clone();
    let mut store = crate::args::copy_vec(&model.main_store);
    store.set(address, value);
    m2.main_store = store;
    Ok(m2)
}

/// The configuration with its watch-address set replaced and everything
/// else as it was.
pub open spec fn conf_with_output_addr(c: RunView, v: Seq<usize>) -> RunView {
    RunView {
        src: c.src,
        exe_from: c.exe_from,
        og_notation: c.og_notation,
        output_model: c.output_model,
        debug_on_err: c.debug_on_err,
        output_addr: v,
        output_regs: c.output_regs,
        break_addr: c.break_addr,
    }
}

/// The configuration with its break-address set replaced and everything
/// else as it was.
pub open spec fn conf_with_break_addr(c: RunView, v: Seq<usize>) -> RunView {
    RunView {
        src: c.src,
        exe_from: c.exe_from,
        og_notation: c.og_notation,
        output_model: c.output_model,
        debug_on_err: c.debug_on_err,
        output_addr: c.output_addr,
        output_regs: c.output_regs,
        break_addr: v,
    }
}

/// The configuration with its watch-register set replaced and everything
/// else as it was.
pub open spec fn conf_with_output_regs(c: RunView, v: Seq<Registers>) -> RunView {
    RunView {
        src: c.src,
        exe_from: c.exe_from,
        og_notation: c.og_notation,
        output_model: c.output_model,
        debug_on_err: c.debug_on_err,
        output_addr: c.output_addr,
        output_regs: v,
        break_addr: c.break_addr,
    }
}

/// The message asking for an action and an address.
pub open spec fn action_missing_msg() -> Seq<char> {
    "Please specify an action (either -/+) and an address. "@
}

/// The message rejecting an action token that is neither `+` nor `-`.
pub open spec fn bad_action_msg(action: Seq<char>) -> Seq<char> {
    "Invalid action `"@ + action + "`, actions must be add (+) or remove (-)"@
}

/// What a `<+|-> <address>` tail does to an address set: the parsed
/// address is added or removed, and a missing token, a bad address or a
/// bad action token is rejected, the address checked first.
pub open spec fn set_addr_set_outcome(cmd: Seq<char>, cur: Seq<usize>) -> Result<
    Seq<usize>,
    Seq<char>,
> {
    let t = trim_spec(cmd);
    let i = until_char(t, ' ');
    if i == t.len() {
        Err(action_missing_msg())
    } else {
        let action = t.take(i);
        let valtok = t.skip(i);
        match address_of(valtok) {
            Some(a) => if action == "+"@ {
                Ok(add_elem(cur, a))
            } else if action == "-"@ {
                Ok(remove_elem(cur, a))
            } else {
                Err(bad_action_msg(action))
            },
            None => Err("Invalid memory address `"@ + address_err_text(valtok) + "`. "@),
        }
    }
}

/// What a `<+|-> <name>` tail does to the watch-register set: the named
/// register is added or removed, and a missing token, a bad name or a bad
/// action token is rejected, the name checked first.
pub open spec fn set_reg_set_outcome(cmd: Seq<char>, cur: Seq<Registers>) -> Result<
    Seq<Registers>,
    Seq<char>,
> {
    let t = trim_spec(cmd);
    let i = until_char(t, ' ');
    if i == t.len() {
        Err(action_missing_msg())
    } else {
        let action = t.take(i);
        let valtok = t.skip(i);
        match register_of(valtok) {
            Some(reg) => if action == "+"@ {
                Ok(add_elem(cur, reg))
            } else if action == "-"@ {
                Ok(remove_elem(cur, reg))
            } else {
                Err(bad_action_msg(action))
            },
            None => Err("Invalid register name `"@ + trim_spec(valtok) + "`. "@),
        }
    }
}

/// Adds or removes an address to print upon debugging, from a
/// `<+|-> <address>` command tail.
///
/// Only the watch-address set of the result differs from the input; any
/// failure leaves the configuration untouched.
pub fn set_debug_address(command: String, conf: &Run) -> (r: Result<Run, String>)
    ensures
        match r {
            Ok(c2) => set_addr_set_outcome(command@, conf@.output_addr) == Ok::<
                _,
                Seq<char>,
            >(c2@.output_addr) && c2@ == conf_with_output_addr(conf@, c2@.output_addr) && (
            conf.wf() ==> c2.wf()),
            Err(s) => set_addr_set_outcome(command@, conf@.output_addr) == Err::<
                Seq<usize>,
                _,
            >(s@),
        },
{
    let cs = chars_of(command.as_str());
    let t = trimmed(&cs);
    let i = find_char(&t, ' ');
    if i == t.len() {
        return Err("Please specify an action (either -/+) and an address. ".to_owned());
    }
    let action = sub_chars(&t, 0, i);
    let valtok = sub_chars(&t, i, t.len());
    proof {
        assert(action@ == trim_spec(command@).take(i as int));
        assert(valtok@ == trim_spec(command@).skip(i as int));
    }
    let address: usize = match parse_memory_address_chars(&valtok) {
        Ok(a) => a,
        Err(e) => {
            return Err(concat3("Invalid memory address `", e.as_str(), "`. "));
        },
    };
    let action_s = chars_to_string(&action);
    let vals = match add_or_remove(&action_s, address, crate::args::copy_vec(
        &conf.output_addr,
    )) {
        Ok(v) => v,
        Err(e) => {
            return Err(e);
        },
    };
    let mut c2 = conf.clone();
    c2.output_addr = vals;
    proof {
        if run_wf(conf@) {
            crate::sets::lemma_remove_preserves_bound(conf@.output_addr, address, 32);
        }
    }
    Ok(c2)
}

/// Adds or removes an address to break into a debug session when hit,
/// from a `<+|-> <address>` command tail.
///
/// Only the break-address set of the result differs from the input; any
/// failure leaves the configuration untouched.
pub fn set_break_address(command: String, conf: &Run) -> (r: Result<Run, String>)
    ensures
        match r {
            Ok(c2) => set_addr_set_outcome(command@, conf@.break_addr) == Ok::<
                _,
                Seq<char>,
            >(c2@.break_addr) && c2@ == conf_with_break_addr(conf@, c2@.break_addr) && (
            conf.wf() ==> c2.wf()),
            Err(s) => set_addr_set_outcome(command@, conf@.break_addr) == Err::<
                Seq<usize>,
                _,
            >(s@),
        },
{
    let cs = chars_of(command.as_str());
    let t = trimmed(&cs);
    let i = find_char(&t, ' ');
    if i == t.len() {
        return Err("Please specify an action (either -/+) and an address. ".to_owned());
    }
    let action = sub_chars(&t, 0, i);
    let valtok = sub_chars(&t, i, t.len());
    proof {
        assert(action@ == trim_spec(command@).take(i as int));
        assert(valtok@ == trim_spec(command@).skip(i as int));
    }
    let address: usize = match parse_memory_address_chars(&valtok) {
        Ok(a) => a,
        Err(e) => {
            return Err(concat3("Invalid memory address `", e.as_str(), "`. "));
        },
    };
    let action_s = chars_to_string(&action);
    let vals = match add_or_remove(&action_s, address, crate::args::copy_vec(
        &conf.break_addr,
    )) {
        Ok(v) => v,
        Err(e) => {
            return Err(e);
        },
    };
    let mut c2 = conf.clone();
    c2.break_addr = vals;
    proof {
        if run_wf(conf@) {
            crate::sets::lemma_remove_preserves_bound(conf@.break_addr, address, 32);
        }
    }
    Ok(c2)
}

/// Adds or removes a register to print upon debugging, from a
/// `<+|-> <name>` command tail.
///
/// Only the watch-register set of the result differs from the input; any
/// failure leaves the configuration untouched.
pub fn set_debug_regs(command: String, conf: &Run) -> (r: Result<Run, String>)
    ensures
        match r {
            Ok(c2) => set_reg_set_outcome(command@, conf@.output_regs) == Ok::<
                _,
                Seq<char>,
            >(c2@.output_regs) && c2@ == conf_with_output_regs(conf@, c2@.output_regs) && (
            conf.wf() ==> c2.wf()),
            Err(s) => set_reg_set_outcome(command@, conf@.output_regs) == Err::<
                Seq<Registers>,
                _,
            >(s@),
        },
{
    let cs = chars_of(command.as_str());
    let t = trimmed(&cs);
    let i = find_char(&t, ' ');
    if i == t.len() {
        return Err("Please specify an action (either -/+) and an address. ".to_owned());
    }
    let action = sub_chars(&t, 0, i);
    let valtok = sub_chars(&t, i, t.len());
    proof {
        assert(action@ == trim_spec(command@).take(i as int));
        assert(valtok@ == trim_spec(command@).skip(i as int));
    }
    let register = match parse_register_chars(&valtok) {
        Ok(reg) => reg,
        Err(e) => {
            return Err(concat3("Invalid register name `", e.as_str(), "`. "));
        },
    };
    let action_s = chars_to_string(&action);
    let vals = match add_or_remove(&action_s, register, crate::args::copy_vec(
        &conf.output_regs,
    )) {
        Ok(v) => v,
        Err(e) => {
            return Err(e);
        },
    };
    let mut c2 = conf.clone();
    c2.output_regs = vals;
    Ok(c2)
}

/// What a whole set command does to the machine: a `reg` or `mem`
/// sub-verb dispatched to its setter, and anything else rejected.
pub open spec fn parse_set_model_outcome(cmd: Seq<char>, m: MachineView) -> Result<
    MachineView,
    Seq<char>,
> {
    let t = trim_spec(cmd);
    let i = until_char(t, ' ');
    let verb = t.take(i);
    let tail = t.skip(i);
    if verb == "reg"@ {
        set_register_outcome(tail, m)
    } else if verb == "mem"@ {
        set_memory_outcome(tail, m)
    } else {
        Err("No such option. "@)
    }
}

/// Checks whether a set command is for the machine itself and dispatches
/// the relevant setter: `reg <name> <value>` or `mem <address> <value>`.
pub fn parse_set_model(command: &str, model: &MachineState) -> (r: Result<
    MachineState,
    String,
>)
    requires
        model.wf(),
    ensures
        match r {
            Ok(m2) => parse_set_model_outcome(command@, model@) == Ok::<_, Seq<char>>(
                m2@,
            ) && m2.wf(),
            Err(s) => parse_set_model_outcome(command@, model@) == Err::<MachineView, _>(
                s@,
            ),
        },
{
    let cs = chars_of(command);
    let t = trimmed(&cs);
    let i = find_char(&t, ' ');
    let verb = sub_chars(&t, 0, i);
    let tail = sub_chars(&t, i, t.len());
    proof {
        assert(verb@ == trim_spec(command@).take(i as int));
        assert(tail@ == trim_spec(command@).skip(i as int));
    }
    let tail_s = chars_to_string(&tail);
    if eq_str(&verb, "reg") {
        let r = set_register(tail_s, model);
        proof {
            if r is Ok {
                assert(machine_wf(model@));
            }
        }
        match r {
            Ok(m2) => Ok(m2),
            Err(e) => Err(e),
        }
    } else if eq_str(&verb, "mem") {
        set_memory_address(tail_s, model)
    } else {
        Err("No such option. ".to_owned())
    }
}

/// What a whole set command does to the configuration: a `debug-addrs`,
/// `break-addrs` or `debug-regs` sub-verb dispatched to its setter, help
/// asked for by `h`, `help` or an empty command, and anything else
/// rejected with a message naming the command.
pub open spec fn parse_set_config_outcome(cmd: Seq<char>, c: RunView) -> Result<
    RunView,
    Seq<char>,
> {
    let t = trim_spec(cmd);
    let i = until_char(t, ' ');
    let verb = t.take(i);
    let tail = t.skip(i);
    if verb == "debug-addrs"@ {
        match set_addr_set_outcome(tail, c.output_addr) {
            Ok(v) => Ok(conf_with_output_addr(c, v)),
            Err(e) => Err(e),
        }
    } else if verb == "break-addrs"@ {
        match set_addr_set_outcome(tail, c.break_addr) {
            Ok(v) => Ok(conf_with_break_addr(c, v)),
            Err(e) => Err(e),
        }
    } else if verb == "debug-regs"@ {
        match set_reg_set_outcome(tail, c.output_regs) {
            Ok(v) => Ok(conf_with_output_regs(c, v)),
            Err(e) => Err(e),
        }
    } else if verb == ""@ || verb == "h"@ || verb == "help"@ {
        Ok(c)
    } else {
        Err("No recognised set command `"@ + t + "`."@)
    }
}

/// Checks whether a set command is for the session configuration and
/// dispatches the relevant setter; `help`, `h` or an empty command prints
/// the set help text and changes nothing.
pub fn parse_set_config<I: Interface>(command: &str, conf: &Run, iface: &I) -> (r: Result<
    Run,
    String,
>)
    ensures
        match r {
            Ok(c2) => parse_set_config_outcome(command@, conf@) == Ok::<_, Seq<char>>(
                c2@,
            ) && (conf.wf() ==> c2.wf()),
            Err(s) => parse_set_config_outcome(command@, conf@) == Err::<RunView, _>(s@),
        },
{
    let cs = chars_of(command);
    let t = trimmed(&cs);
    let i = find_char(&t, ' ');
    let verb = sub_chars(&t, 0, i);
    let tail = sub_chars(&t, i, t.len());
    proof {
        assert(verb@ == trim_spec(command@).take(i as int));
        assert(tail@ == trim_spec(command@).skip(i as int));
    }
    let tail_s = chars_to_string(&tail);
    if eq_str(&verb, "debug-addrs") {
        set_debug_address(tail_s, conf)
    } else if eq_str(&verb, "break-addrs") {
        set_break_address(tail_s, conf)
    } else if eq_str(&verb, "debug-regs") {
        set_debug_regs(tail_s, conf)
    } else if eq_str(&verb, "") || eq_str(&verb, "h") || eq_str(&verb, "help") {
        iface.log_msg(SET_HELP_MSG.to_owned());
        Ok(conf.clone())
    } else {
        let whole = chars_to_string(&t);
        Err(concat3("No recognised set command `", whole.as_str(), "`."))
    }
}

/// What a whole set command does to the pair of machine and
/// configuration: machine sub-verbs leave the configuration as it is,
/// configuration sub-verbs leave the machine as it is, and an unknown
/// sub-verb is rejected with a message naming the command.
pub open spec fn parse_set_outcome(cmd: Seq<char>, m: MachineView, c: RunView) -> Result<
    (MachineView, RunView),
    Seq<char>,
> {
    let t = trim_spec(cmd);
    let i = until_char(t, ' ');
    let verb = t.take(i);
    if verb == "reg"@ || verb == "mem"@ {
        match parse_set_model_outcome(cmd, m) {
            Ok(m2) => Ok((m2, c)),
            Err(e) => Err(e),
        }
    } else if verb == "debug-addrs"@ || verb == "break-addrs"@ || verb == "debug-regs"@
        || verb == ""@ || verb == "h"@ || verb == "help"@ {
        match parse_set_config_outcome(cmd, c) {
            Ok(c2) => Ok((m, c2)),
            Err(e) => Err(e),
        }
    } else {
        Err("No such option as `"@ + t + "`. "@)
    }
}

/// Parses a set command and dispatches the relevant setter, for the
/// machine or for the session configuration.
pub fn parse_set_command<I: Interface>(
    command: String,
    conf: &Run,
    model: &MachineState,
    iface: &I,
) -> (r: Result<(MachineState, Run), String>)
    requires
        model.wf(),
    ensures
        match r {
            Ok(p) => parse_set_outcome(command@, model@, conf@) == Ok::<_, Seq<char>>(
                (p.0@, p.1@),
            ) && p.0.wf() && (conf.wf() ==> p.1.wf()),
            Err(s) => parse_set_outcome(command@, model@, conf@) == Err::<
                (MachineView, RunView),
                _,
            >(s@),
        },
{
    let cs = chars_of(command.as_str());
    let t = trimmed(&cs);
    let i = find_char(&t, ' ');
    let verb = sub_chars(&t, 0, i);
    proof {
        assert(verb@ == trim_spec(command@).take(i as int));
    }
    if eq_str(&verb, "reg") || eq_str(&verb, "mem") {
        match parse_set_model(command.as_str(), model) {
            Ok(m2) => Ok((m2, conf.clone())),
            Err(e) => Err(e),
        }
    } else if eq_str(&verb, "debug-addrs") || eq_str(&verb, "break-addrs") || eq_str(
        &verb,
        "debug-regs",
    ) || eq_str(&verb, "") || eq_str(&verb, "h") || eq_str(&verb, "help") {
        match parse_set_config(command.as_str(), conf, iface) {
            Ok(c2) => Ok((model.clone(), c2)),
            Err(e) => Err(e),
        }
    } else {
        let whole = chars_to_string(&t);
        Err(concat3("No such option as `", whole.as_str(), "`. "))
    }
}

/// Parses a set command, dispatches the relevant setter, and reports any
/// failure as a warning; on failure the machine and the configuration
/// come back exactly as they were.
pub fn modify<I: Interface>(command: String, conf: &Run, model: &MachineState, iface: &I) -> (r:
    (MachineState, Run))
    requires
        model.wf(),
    ensures
        match parse_set_outcome(command@, model@, conf@) {
            Ok(p) => r.0@ == p.0 && r.1@ == p.1,
            Err(e) => r.0@ == model@ && r.1@ == conf@,
        },
        r.0.wf(),
        conf.wf() ==> r.1.wf(),
{
    match parse_set_command(command, conf, model, iface) {
        Ok(v) => v,
        Err(e) => {
            iface.log_warn(e);
            (model.clone(), conf.clone())
        },
    }
}

} // verus!
