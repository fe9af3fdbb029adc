use vstd::prelude::*;
use crate::args::Registers;
use crate::args::Run;
use crate::interface::Interface;
use crate::machine::MachineState;
use crate::render::addr_hex;
use crate::render::addr_hex_chars;
use crate::run::output::output_all_memory;
use crate::run::output::output_all_registers;
use crate::run::output::output_model;
use crate::run::debug::utils::parse_memory_addresses;
use crate::run::debug::utils::parse_registers;
use crate::text::chars_of;
use crate::text::chars_to_string;
use crate::text::concat2;
use crate::text::concat3;
use crate::text::eq_str;
use crate::text::find_char;
use crate::text::sub_chars;
use crate::text::trim_spec;
use crate::text::trimmed;
use vstd::string::StringExecFns;

verus! {

/// The help message for a list of print commands.
pub const PRINT_HELP: &'static str = "Possible sub-commands:

reg accumulator/instruction/instructionaddress - Outputs the registers
mem 0xA - Output a memory location (max 32, can be hex 0xA, decimal 10, octal 0o12, binary 0b1010)
all-model - Output the whole model
debug-addrs - The memory addresses to print upon debugging
break-addrs - The memory addresses to enter debuging upon hitting
debug-regs - The registers to print upon debugging
help - Print this help command";

/// The name a register is displayed under.
pub open spec fn register_name(reg: Registers) -> Seq<char> {
    match reg {
        Registers::Accumulator => "Accumulator"@,
        Registers::Instruction => "Instruction"@,
        Registers::InstructionAddress => "InstructionAddress"@,
    }
}

/// A list of addresses as displayed: each as two hexadecimal digits,
/// comma-joined, in the order held.
pub open spec fn address_list(addrs: Seq<usize>) -> Seq<char>
    decreases addrs.len(),
{
    if addrs.len() == 0 {
        Seq::<char>::empty()
    } else if addrs.len() == 1 {
        addr_hex(addrs[0] as int)
    } else {
        address_list(addrs.drop_last()) + ", "@ + addr_hex(addrs.last() as int)
    }
}

/// A list of register names as displayed: comma-joined, in the order
/// held.
pub open spec fn register_list(regs: Seq<Registers>) -> Seq<char>
    decreases regs.len(),
{
    if regs.len() == 0 {
        Seq::<char>::empty()
    } else if regs.len() == 1 {
        register_name(regs[0])
    } else {
        register_list(regs.drop_last()) + ", "@ + register_name(regs.last())
    }
}

/// The text of a comma-joined list of addresses.
pub fn render_addresses(addrs: &Vec<usize>) -> (r: String)
    requires
        forall|i: int| 0 <= i < addrs@.len() ==> addrs@[i] < 32,
    ensures
        r@ == address_list(addrs@),
{
    let mut s = String::new();
    let mut i: usize = 0;
    while i < addrs.len()
        invariant
            i <= addrs@.len(),
            forall|k: int| 0 <= k < addrs@.len() ==> addrs@[k] < 32,
            s@ == address_list(addrs@.take(i as int)),
        decreases addrs@.len() - i,
    {
        if i > 0 {
            s.append(", ");
        }
        let piece = addr_hex_chars(addrs[i]);
        let piece_s = chars_to_string(&piece);
        s.append(piece_s.as_str());
        proof {
            let t = addrs@.take(i as int + 1);
            assert(t.drop_last() =~= addrs@.take(i as int));
            assert(t.last() == addrs@[i as int]);
            if i == 0 {
                assert(s@ =~= address_list(t));
            } else {
                assert(s@ =~= address_list(t));
            }
        }
        i = i + 1;
    }
    proof {
        assert(addrs@.take(addrs@.len() as int) =~= addrs@);
    }
    s
}

/// The text of a comma-joined list of register names.
pub fn render_register_names(regs: &Vec<Registers>) -> (r: String)
    ensures
        r@ == register_list(regs@),
{
    let mut s = String::new();
    let mut i: usize = 0;
    while i < regs.len()
        invariant
            i <= regs@.len(),
            s@ == register_list(regs@.take(i as int)),
        decreases regs@.len() - i,
    {
        if i > 0 {
            s.append(", ");
        }
        match regs[i] {
            Registers::Accumulator => s.append("Accumulator"),
            Registers::Instruction => s.append("Instruction"),
            Registers::InstructionAddress => s.append("InstructionAddress"),
        }
        proof {
            let t = regs@.take(i as int + 1);
            assert(t.drop_last() =~= regs@.take(i as int));
            assert(t.last() == regs@[i as int]);
            assert(s@ =~= register_list(t));
        }
        i = i + 1;
    }
    proof {
        assert(regs@.take(regs@.len() as int) =~= regs@);
    }
    s
}

/// Prints the machine's registers named in a comma-separated list, or all
/// of them when the list is empty; a bad name aborts the command with a
/// warning and prints nothing further.
pub fn show_registers<I: Interface>(regs: String, model: &MachineState, iface: &I)
    requires
        model.wf(),
{
    let cs = chars_of(regs.as_str());
    let t = trimmed(&cs);
    if t.len() == 0 {
        output_all_registers(model, iface);
        return;
    }
    match parse_registers(regs.as_str()) {
        Ok(v) => {
            let empty: Vec<usize> = Vec::new();
            output_model(&v, &empty, false, model, iface);
        },
        Err(e) => iface.log_warn(concat2("Invalid register name: ", e.as_str())),
    }
}

/// Prints the machine's memory cells named in a comma-separated list of
/// addresses, or all of them when the list is empty; a bad address aborts
/// the command with a warning and prints nothing further.
pub fn show_memory_addresses<I: Interface>(addrs: String, model: &MachineState, iface: &I)
    requires
        model.wf(),
{
    let cs = chars_of(addrs.as_str());
    let t = trimmed(&cs);
    if t.len() == 0 {
        output_all_memory(model, iface);
        return;
    }
    match parse_memory_addresses(addrs) {
        Ok(v) => {
            proof {
                let parts = crate::text::split_commas_spec(trim_spec(cs@));
                assert forall|k: int| 0 <= k < v@.len() implies v@[k] < 32 by {
                    assert(crate::run::debug::utils::address_of(parts[k]) == Some(
                        v@[k],
                    ));
                }
            }
            let empty: Vec<Registers> = Vec::new();
            output_model(&empty, &v, false, model, iface);
        },
        Err(e) => iface.log_warn(concat2("Invalid memory address: ", e.as_str())),
    }
}

/// Prints a formatted comma-joined list of memory addresses.
pub fn print_addresses<I: Interface>(addrs: &Vec<usize>, iface: &I)
    requires
        forall|i: int| 0 <= i < addrs@.len() ==> addrs@[i] < 32,
{
    iface.log_msg(render_addresses(addrs));
}

/// Prints a formatted comma-joined list of register names.
pub fn print_registers<I: Interface>(regs: &Vec<Registers>, iface: &I) {
    iface.log_msg(render_register_names(regs));
}

/// Prints parts of the machine and of the session configuration chosen by
/// a print command: `reg`, `mem`, `all-model`, the three watch and break
/// sets, or the help text; an unknown sub-verb gets a warning naming the
/// command.
pub fn print<I: Interface>(command: String, conf: &Run, model: &MachineState, iface: &I)
    requires
        model.wf(),
        conf.wf(),
{
    let cs = chars_of(command.as_str());
    let t = trimmed(&cs);
    let i = find_char(&t, ' ');
    let verb = sub_chars(&t, 0, i);
    let tail = sub_chars(&t, i, t.len());
    if eq_str(&verb, "reg") {
        show_registers(chars_to_string(&tail), model, iface);
    } else if eq_str(&verb, "mem") {
        show_memory_addresses(chars_to_string(&tail), model, iface);
    } else if eq_str(&verb, "all-model") {
        let empty_regs: Vec<Registers> = Vec::new();
        let empty_addrs: Vec<usize> = Vec::new();
        output_model(&empty_regs, &empty_addrs, true, model, iface);
    } else if eq_str(&verb, "debug-addrs") {
        proof {
            assert(forall|k: int|
                0 <= k < conf.output_addr@.len() ==> conf@.output_addr[k] < 32);
        }
        print_addresses(&conf.output_addr, iface);
    } else if eq_str(&verb, "break-addrs") {
        proof {
            assert(forall|k: int|
                0 <= k < conf.break_addr@.len() ==> conf@.break_addr[k] < 32);
        }
        print_addresses(&conf.break_addr, iface);
    } else if eq_str(&verb, "debug-regs") {
        print_registers(&conf.output_regs, iface);
    } else if eq_str(&verb, "") || eq_str(&verb, "h") || eq_str(&verb, "help") {
        iface.log_msg(PRINT_HELP.to_owned());
    } else {
        let whole = chars_to_string(&t);
        let msg = concat3("No recognised print command `", whole.as_str(), "`. \n");
        iface.log_warn(concat2(msg.as_str(), PRINT_HELP));
    }
}

} // verus!
