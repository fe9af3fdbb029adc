use vstd::prelude::*;

verus! {

/// The start-up configuration: one command to run.
pub struct Cli {
    pub command: Commands,
}

/// The two things the program can be asked to do.
pub enum Commands {
    /// Assemble an asm source file to a binary file.
    Assemble(Assemble),
    /// Load and run a source file.
    Run(Run),
}

/// Configuration of the assemble command.
pub struct Assemble {
    /// The input source file.
    pub input: String,
    /// The output binary dump.
    pub output: Option<String>,
    /// Where to write the tag definitions the assembler found, as JSON;
    /// nothing is written when no file is named.
    pub tags: Option<String>,
    /// Use original notation for the instructions.
    pub og_notation: bool,
}

/// Configuration of the run command, which doubles as the debug session's
/// configuration: the watch and break sets live here.
pub struct Run {
    /// The source file to execute from.
    pub src: String,
    /// The format of the file to execute from.
    pub exe_from: ExecuteFrom,
    /// Use original notation for asm instructions if running from asm.
    pub og_notation: bool,
    /// Output the whole model, registers and memory, when execution stops
    /// or a breakpoint is encountered.
    pub output_model: bool,
    /// Go into a debug session when an execution fault is encountered, as
    /// opposed to exiting.
    pub debug_on_err: bool,
    /// Memory addresses to output when execution stops or a breakpoint is
    /// encountered.
    pub output_addr: Vec<usize>,
    /// Registers to output when execution stops or a breakpoint is
    /// encountered.
    pub output_regs: Vec<Registers>,
    /// Addresses where to break and output the state of the core.
    pub break_addr: Vec<usize>,
}

/// The mathematical value of a `Run` configuration.
pub struct RunView {
    pub src: Seq<char>,
    pub exe_from: ExecuteFrom,
    pub og_notation: bool,
    pub output_model: bool,
    pub debug_on_err: bool,
    pub output_addr: Seq<usize>,
    pub output_regs: Seq<Registers>,
    pub break_addr: Seq<usize>,
}

impl View for Run {
    type V = RunView;

    open spec fn view(&self) -> RunView {
        RunView {
            src: self.src@,
            exe_from: self.exe_from,
            og_notation: self.og_notation,
            output_model: self.output_model,
            debug_on_err: self.debug_on_err,
            output_addr: self.output_addr@,
            output_regs: self.output_regs@,
            break_addr: self.break_addr@,
        }
    }
}

/// Every address held in the configuration's watch and break sets points
/// into the machine's store.
pub open spec fn run_wf(c: RunView) -> bool {
    (forall|i: int| 0 <= i < c.output_addr.len() ==> c.output_addr[i] < 32) && (forall|
        i: int,
    | 0 <= i < c.break_addr.len() ==> c.break_addr[i] < 32)
}

impl Run {
    /// Every address held in the watch and break sets points into the
    /// machine's store.
    pub open spec fn wf(&self) -> bool {
        run_wf(self@)
    }
}

impl Clone for Run {
    fn clone(&self) -> (r: Self)
        ensures
            r@ == self@,
            r.wf() == self.wf(),
    {
        let r = Run {
            src: self.src.clone(),
            exe_from: self.exe_from,
            og_notation: self.og_notation,
            output_model: self.output_model,
            debug_on_err: self.debug_on_err,
            output_addr: copy_vec(&self.output_addr),
            output_regs: copy_vec(&self.output_regs),
            break_addr: copy_vec(&self.break_addr),
        };
        r
    }
}

/// Where a program image is read from.
#[derive(Copy, Clone, Debug, PartialEq, Eq, Structural)]
pub enum ExecuteFrom {
    /// Executes from an assembly file.
    Asm,
    /// Executes from a binary dump.
    Bin,
}

/// The machine's three registers.
#[derive(Copy, Clone, Debug, PartialEq, Eq, Structural)]
pub enum Registers {
    /// The accumulator register.
    Accumulator,
    /// The instruction register.
    Instruction,
    /// The instruction address register.
    InstructionAddress,
}

/// Parses a memory address given at startup as an address to output on
/// debugging; the value must lie inside the machine's store.
pub fn parse_output_addresses(input: &str) -> (r: Result<usize, String>)
    ensures
        match r {
            Ok(a) => crate::run::debug::utils::address_of(input@) == Some(a) && a < 32,
            Err(s) => crate::run::debug::utils::address_of(input@) is None,
        },
{
    match crate::run::debug::utils::parse_memory_address(input) {
        Ok(a) => Ok(a),
        Err(_) => {
            let msg = crate::text::concat3(
                "Invalid value passed as output memory address `",
                input,
                "`. ",
            );
            Err(msg)
        },
    }
}

/// Parses a memory address given at startup as a breakpoint; the value
/// must lie inside the machine's store.
pub fn parse_breakpoint_addresses(input: &str) -> (r: Result<usize, String>)
    ensures
        match r {
            Ok(a) => crate::run::debug::utils::address_of(input@) == Some(a) && a < 32,
            Err(s) => crate::run::debug::utils::address_of(input@) is None,
        },
{
    match crate::run::debug::utils::parse_memory_address(input) {
        Ok(a) => Ok(a),
        Err(_) => {
            let msg = crate::text::concat3(
                "Invalid value passed as breakpoint address `",
                input,
                "`. ",
            );
            Err(msg)
        },
    }
}

/// An element-wise copy of a vector of plain values.
pub fn copy_vec<T: Copy>(v: &Vec<T>) -> (r: Vec<T>)
    ensures
        r@ == v@,
{
    let mut r: Vec<T> = Vec::new();
    let mut i: usize = 0;
    while i < v.len()
        invariant
            i <= v@.len(),
            r@ == v@.take(i as int),
        decreases v@.len() - i,
    {
        r.push(v[i]);
        assert(r@ =~= v@.take(i as int + 1));
        i = i + 1;
    }
    assert(r@ =~= v@);
    r
}

} // verus!
