use vstd::prelude::*;
use crate::args::Registers;
use crate::interface::Interface;
use crate::machine::MachineState;
use crate::machine::MachineView;
use crate::machine::describe_instruction;
use crate::machine::dump_machine;
use crate::machine::instr_description;
use crate::render::addr_hex;
use crate::render::addr_hex_chars;
use crate::render::half_hex;
use crate::render::half_hex_chars;
use crate::render::word_hex;
use crate::render::word_hex_chars;
use crate::text::chars_to_string;
use crate::text::concat3;

verus! {

/// The line a register is printed as: the register's value as a
/// zero-padded hexadecimal word, and for the instruction register also
/// the execution service's description of the loaded instruction.
pub open spec fn register_line(reg: Registers, m: MachineView) -> Seq<char> {
    match reg {
        Registers::Accumulator => word_hex(m.accumulator),
        Registers::Instruction => half_hex(m.instruction) + " ("@ + instr_description(
            m.instruction,
        ) + ")"@,
        Registers::InstructionAddress => half_hex(m.instruction_address),
    }
}

/// The line a memory cell is printed as: its address as two hexadecimal
/// digits, and its value as a zero-padded hexadecimal word.
pub open spec fn memory_line(a: int, v: i32) -> Seq<char> {
    addr_hex(a) + ": "@ + word_hex(v)
}

/// The text of a register's output line.
pub fn render_register(regs: &Registers, model: &MachineState) -> (r: String)
    ensures
        r@ == register_line(*regs, model@),
{
    match regs {
        Registers::Accumulator => {
            let cs = word_hex_chars(model.accumulator);
            chars_to_string(&cs)
        },
        Registers::InstructionAddress => {
            let cs = half_hex_chars(model.instruction_address);
            chars_to_string(&cs)
        },
        Registers::Instruction => {
            let cs = half_hex_chars(model.instruction);
            let value = chars_to_string(&cs);
            let desc = describe_instruction(model.instruction);
            let line = concat3(value.as_str(), " (", desc.as_str());
            let out = crate::text::concat2(line.as_str(), ")");
            proof {
                assert(out@ =~= register_line(*regs, model@));
            }
            out
        },
    }
}

/// The text of a memory cell's output line.
pub fn render_memory_line(a: usize, v: i32) -> (r: String)
    requires
        a < 32,
    ensures
        r@ == memory_line(a as int, v),
{
    let addr = addr_hex_chars(a);
    let addr_s = chars_to_string(&addr);
    let word = word_hex_chars(v);
    let word_s = chars_to_string(&word);
    concat3(addr_s.as_str(), ": ", word_s.as_str())
}

/// Outputs a register of the machine, formatted, to the interface.
pub fn output_register<I: Interface>(regs: &Registers, model: &MachineState, iface: &I) {
    iface.log_msg(render_register(regs, model));
}

/// Outputs all three registers of the machine, formatted, in canonical
/// order: accumulator, instruction, instruction address.
pub fn output_all_registers<I: Interface>(model: &MachineState, iface: &I) {
    output_register(&Registers::Accumulator, model, iface);
    output_register(&Registers::Instruction, model, iface);
    output_register(&Registers::InstructionAddress, model, iface);
}

/// Outputs the whole store of the machine, one line per memory cell,
/// address 0 through 31.
pub fn output_all_memory<I: Interface>(model: &MachineState, iface: &I)
    requires
        model.wf(),
{
    let mut a: usize = 0;
    while a < 32
        invariant
            model.wf(),
        decreases 32 - a,
    {
        iface.log_msg(render_memory_line(a, model.main_store[a]));
        a = a + 1;
    }
}

/// Outputs the machine per the given choices: the execution service's
/// full dump when `whole_model` is set, and otherwise the named registers
/// followed by the named memory cells, in the order given.
pub fn output_model<I: Interface>(
    registers: &Vec<Registers>,
    memory_addrs: &Vec<usize>,
    whole_model: bool,
    model: &MachineState,
    iface: &I,
)
    requires
        model.wf(),
        forall|i: int| 0 <= i < memory_addrs@.len() ==> memory_addrs@[i] < 32,
{
    if whole_model {
        iface.log_msg(dump_machine(model));
        return;
    }
    let mut i: usize = 0;
    while i < registers.len()
        invariant
            model.wf(),
        decreases registers@.len() - i,
    {
        output_register(&registers[i], model, iface);
        i = i + 1;
    }
    let mut j: usize = 0;
    while j < memory_addrs.len()
        invariant
            model.wf(),
            forall|k: int| 0 <= k < memory_addrs@.len() ==> memory_addrs@[k] < 32,
        decreases memory_addrs@.len() - j,
    {
        let a = memory_addrs[j];
        iface.log_msg(render_memory_line(a, model.main_store[a]));
        j = j + 1;
    }
}

} // verus!
