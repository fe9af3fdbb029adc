use vstd::prelude::*;
use crate::args::copy_vec;

verus! {

/// The number of words in the machine's store.
pub const MEMORY_WORDS: usize = 32;

/// The instruction value whose execution stops the machine: the stop
/// opcode in the high three bits and an empty operand, as the emulator
/// encodes its stop instruction.
pub const HALT_OPCODE: u16 = 0xE000;

/// The machine: an accumulator, an instruction register, an instruction
/// address register and a store of 32 signed words.  Every transition
/// returns a fresh value, so a rejected mutation can never leave partial
/// state behind.
#[derive(PartialEq, Debug)]
pub struct MachineState {
    /// The memory: 32 words of 32 bits.
    pub main_store: Vec<i32>,
    /// The register where all mathematical results are stored.
    pub accumulator: i32,
    /// The memory address of the instruction currently being executed.
    pub instruction_address: u16,
    /// The 16 bit instruction being executed.
    pub instruction: u16,
}

/// The mathematical value of a machine state.
pub struct MachineView {
    pub main_store: Seq<i32>,
    pub accumulator: i32,
    pub instruction_address: u16,
    pub instruction: u16,
}

impl View for MachineState {
    type V = MachineView;

    open spec fn view(&self) -> MachineView {
        MachineView {
            main_store: self.main_store@,
            accumulator: self.accumulator,
            instruction_address: self.instruction_address,
            instruction: self.instruction,
        }
    }
}

/// A machine state is well formed when its store holds exactly the
/// machine's 32 words.
pub open spec fn machine_wf(m: MachineView) -> bool {
    m.main_store.len() == MEMORY_WORDS
}

/// The view of the machine all of whose registers and store words are
/// zero.
pub open spec fn zero_machine() -> MachineView {
    MachineView {
        main_store: Seq::new(MEMORY_WORDS as nat, |i: int| 0i32),
        accumulator: 0,
        instruction_address: 0,
        instruction: 0,
    }
}

impl MachineState {
    /// Its store holds exactly the machine's 32 words.
    pub open spec fn wf(&self) -> bool {
        machine_wf(self@)
    }

    /// A machine with all registers and store words zero.
    pub fn new() -> (r: MachineState)
        ensures
            r@ == zero_machine(),
            r.wf(),
    {
        let store: Vec<i32> = vec![0i32; 32];
        proof {
            assert(store@ =~= zero_machine().main_store);
        }
        MachineState { main_store: store, accumulator: 0, instruction_address: 0, instruction: 0 }
    }

    /// A machine loaded with the given store, about to execute from
    /// address zero: the first store word is loaded into the instruction
    /// register, as the emulator does on creation.
    pub fn new_with_program(main_store: Vec<i32>) -> (r: MachineState)
        requires
            main_store@.len() == MEMORY_WORDS,
        ensures
            r@.main_store == main_store@,
            r@.accumulator == 0,
            r@.instruction_address == 0,
            r@.instruction == main_store@[0] as u16,
            r.wf(),
    {
        let instruction: u16 = #[verifier::truncate] (main_store[0] as u16);
        MachineState { main_store, accumulator: 0, instruction_address: 0, instruction }
    }
}

impl Clone for MachineState {
    fn clone(&self) -> (r: Self)
        ensures
            r@ == self@,
    {
        MachineState {
            main_store: copy_vec(&self.main_store),
            accumulator: self.accumulator,
            instruction_address: self.instruction_address,
            instruction: self.instruction,
        }
    }
}

/// The machine view with the accumulator replaced and everything else as
/// it was.
pub open spec fn view_with_accumulator(m: MachineView, v: i32) -> MachineView {
    MachineView {
        main_store: m.main_store,
        accumulator: v,
        instruction_address: m.instruction_address,
        instruction: m.instruction,
    }
}

/// The machine view with one of the two instruction registers replaced:
/// the address register when `address` holds, the instruction register
/// otherwise.
pub open spec fn view_with_ir(m: MachineView, address: bool, v: u16) -> MachineView {
    MachineView {
        main_store: m.main_store,
        accumulator: m.accumulator,
        instruction_address: if address {
            v
        } else {
            m.instruction_address
        },
        instruction: if !address {
            v
        } else {
            m.instruction
        },
    }
}

/// The machine view with one store word replaced and everything else as
/// it was.
pub open spec fn view_with_store_word(m: MachineView, a: int, v: i32) -> MachineView {
    MachineView {
        main_store: m.main_store.update(a, v),
        accumulator: m.accumulator,
        instruction_address: m.instruction_address,
        instruction: m.instruction,
    }
}

/// A fault reported by the machine while executing one instruction.
#[derive(Copy, Clone, Debug, PartialEq, Eq, Structural)]
pub struct ExecutionFault {
    /// The address of the instruction that faulted.
    pub at: u16,
}

/// The states on which the machine execution service can perform one
/// cycle without leaving the range of its arithmetic.  The emulator
/// decodes the high three instruction bits as the opcode and the low five
/// as the operand address, and then computes with unchecked additions: a
/// relative jump adds the operand word to the instruction address in 16
/// bits, every advancing instruction adds one (the skip test up to two)
/// to the instruction address, negation negates the operand word, and
/// subtraction subtracts it from the accumulator in 32 bits.  A state
/// under which one of those computations would leave its range is not
/// safe to hand to the service.
pub open spec fn step_safe(m: MachineView) -> bool {
    let opcode = m.instruction >> 13;
    let value = m.main_store[(m.instruction & 0x1F) as int];
    if opcode == 4 {
        m.instruction_address + (value as u16) <= u16::MAX
    } else if opcode == 2 {
        value != i32::MIN && m.instruction_address < u16::MAX
    } else if opcode == 6 {
        m.instruction_address < u16::MAX
    } else if opcode == 1 || opcode == 5 {
        i32::MIN <= m.accumulator - value <= i32::MAX && m.instruction_address < u16::MAX
    } else if opcode == 3 {
        if m.accumulator < 0 {
            m.instruction_address + 2 <= u16::MAX
        } else {
            m.instruction_address + 1 <= u16::MAX
        }
    } else {
        true
    }
}

/// Whether the machine execution service can perform one cycle on this
/// state without leaving the range of its arithmetic.
pub fn step_is_safe(model: &MachineState) -> (r: bool)
    requires
        model.wf(),
    ensures
        r == step_safe(model@),
{
    let opcode: u16 = model.instruction >> 13;
    proof {
        let instr = model.instruction;
        assert(instr & 0x1F < 32) by (bit_vector);
    }
    let value: i32 = model.main_store[(model.instruction & 0x1F) as usize];
    if opcode == 4 {
        (model.instruction_address as u32) + ((value as u16) as u32) <= u16::MAX as u32
    } else if opcode == 2 {
        value != i32::MIN && model.instruction_address < u16::MAX
    } else if opcode == 6 {
        model.instruction_address < u16::MAX
    } else if opcode == 1 || opcode == 5 {
        let difference: i64 = (model.accumulator as i64) - (value as i64);
        (i32::MIN as i64) <= difference && difference <= (i32::MAX as i64)
            && model.instruction_address < u16::MAX
    } else if opcode == 3 {
        if model.accumulator < 0 {
            (model.instruction_address as u32) + 2 <= u16::MAX as u32
        } else {
            (model.instruction_address as u32) + 1 <= u16::MAX as u32
        }
    } else {
        true
    }
}

/// What one instruction cycle of the machine execution service does to a
/// machine state on which it is safe: the successor state, and the
/// address of the fault if the cycle reported one.  The emulator computes
/// this from the machine state alone.
pub uninterp spec fn step_of(m: MachineView) -> (MachineView, Option<u16>);

/// The text the machine execution service describes an instruction value
/// with; a function of the value alone.
pub uninterp spec fn instr_description(instr: u16) -> Seq<char>;

/// The assembler service's result for a source text: the 32-word program
/// image, or the text of the assembly error; a function of the source
/// text and the notation flag alone.
pub uninterp spec fn image_of(source: Seq<char>, og_notation: bool) -> Result<
    Seq<i32>,
    Seq<char>,
>;

/// The text of the machine execution service's full dump of a machine
/// state; a function of the state alone.
pub uninterp spec fn dump_of(m: MachineView) -> Seq<char>;

/// Relies on `BabyModel::execute` of the `baby_emulator` crate: one
/// instruction cycle, computed from the machine state alone.  On the
/// states `step_safe` admits, the emulator's unchecked additions,
/// negation and subtraction all stay in range, so the call returns
/// without panicking.  On a fault the emulator returns its error before
/// touching anything and this wrapper hands the input state back; the
/// store always keeps the machine's 32 words.
#[verifier::external_body]
pub fn step_machine(m: &MachineState) -> (r: (MachineState, Option<ExecutionFault>))
    requires
        m.wf(),
        step_safe(m@),
    ensures
        r.0.wf(),
        step_of(m@) == (
            r.0@,
            match r.1 {
                Some(f) => Some(f.at),
                None => None,
            },
        ),
        r.1 is Some ==> r.0@ == m@,
{
    let store = m.main_store.clone().try_into().unwrap_or([0; 32]);
    let model = baby_emulator::core::BabyModel {
        main_store: store,
        accumulator: m.accumulator,
        instruction_address: m.instruction_address,
        instruction: m.instruction,
    };
    match model.execute() {
        Ok(n) => (
            MachineState { main_store: n.main_store.to_vec(), accumulator: n.accumulator, instruction_address: n.instruction_address, instruction: n.instruction },
            None,
        ),
        Err(e) => (m.clone(), Some(ExecutionFault { at: baby_emulator::core::errors::BabyError::at(&e) })),
    }
}

/// Relies on `BabyInstruction::from_number` and
/// `BabyInstruction::get_instr_description` of the `baby_emulator` crate:
/// the short description of the instruction a register value decodes to,
/// a function of the value alone.
#[verifier::external_body]
pub fn describe_instruction(instr: u16) -> (r: String)
    ensures
        r@ == instr_description(instr),
        instr == HALT_OPCODE ==> r@ == "stop instruction"@,
{
    baby_emulator::core::instructions::BabyInstruction::from_number(instr).get_instr_description()
}

/// Relies on `BabyModel::core_dump` of the `baby_emulator` crate: the
/// formatted dump of all registers and the whole store, a function of the
/// machine state alone.
#[verifier::external_body]
pub fn dump_machine(m: &MachineState) -> (r: String)
    requires
        m.wf(),
    ensures
        r@ == dump_of(m@),
{
    let model = baby_emulator::core::BabyModel {
        main_store: m.main_store.clone().try_into().unwrap_or([0; 32]),
        accumulator: m.accumulator,
        instruction_address: m.instruction_address,
        instruction: m.instruction,
    };
    model.core_dump()
}

/// Relies on the assembler service of the `baby_emulator` crate: its
/// `assembler::assemble` parses and links the text, its
/// `BabyInstruction::to_numbers` encodes the result as the machine's
/// 32-word image, and on failure the error's own `describe` renders the
/// message.  The image and the error compute from the text and the
/// notation flag alone, so they are the name `image_of` of those
/// arguments; the tag pairs come back in whatever order the linker's map
/// yields them, which names nothing.
#[verifier::external_body]
pub fn assemble_image(source: &String, og_notation: bool) -> (r: Result<
    (Vec<i32>, Vec<(String, i32)>),
    String,
>)
    ensures
        match r {
            Ok(p) => image_of(source@, og_notation) == Ok::<Seq<i32>, Seq<char>>(p.0@)
                && p.0@.len() == MEMORY_WORDS,
            Err(e) => image_of(source@, og_notation) == Err::<Seq<i32>, Seq<char>>(e@),
        },
{
    match baby_emulator::assembler::assemble(source, og_notation) {
        Ok(baby_emulator::assembler::linker::LinkerData(instrs, tags)) => Ok((
            baby_emulator::core::instructions::BabyInstruction::to_numbers(instrs).to_vec(),
            tags.into_iter().collect(),
        )),
        Err(e) => Err(e.describe(true)),
    }
}

/// Relies on `serde_json::to_string` over a std `HashMap` rebuilt from
/// the pairs: the JSON object of the tag map, or the serialisation
/// error's own text.  The order of the keys in the text follows the map's
/// own iteration and names nothing.
#[verifier::external_body]
pub fn tags_to_json(tags: Vec<(String, i32)>) -> (r: Result<String, String>) {
    let map: std::collections::HashMap<String, i32> = tags.into_iter().collect();
    serde_json::to_string(&map).map_err(|e| e.to_string())
}

} // verus!
