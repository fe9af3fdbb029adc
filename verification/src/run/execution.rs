use vstd::prelude::*;
use crate::args::Run;
use crate::interface::Interface;
use crate::machine::ExecutionFault;
use crate::machine::HALT_OPCODE;
use crate::machine::MachineState;
use crate::machine::MachineView;
use crate::machine::step_machine;
use crate::machine::step_of;
use crate::machine::step_safe;
use crate::run::ProgramStack;
use crate::run::debug::DebugResult;
use crate::run::debug::check_debug_session;
use crate::run::output::output_model;

verus! {

/// Whether a machine is halted: exactly when its instruction register
/// holds the halt opcode.
pub open spec fn halted(m: MachineView) -> bool {
    m.instruction == HALT_OPCODE
}

/// The execution control loop terminates exactly on the halt condition:
/// this test holds if and only if the instruction register equals the
/// halt opcode.
pub fn should_halt(model: &MachineState) -> (r: bool)
    ensures
        r == halted(model@),
{
    model.instruction == HALT_OPCODE
}

/// What one cycle of the controller does to the machine: the execution
/// service's step where the state is safe to hand to it, and the state
/// unchanged where it is not.
pub open spec fn cycle_of(m: MachineView) -> MachineView {
    if step_safe(m) {
        step_of(m).0
    } else {
        m
    }
}

/// The machine after `n` cycles of the controller.
pub open spec fn cycles_of(m: MachineView, n: nat) -> MachineView
    decreases n,
{
    if n == 0 {
        m
    } else {
        cycle_of(cycles_of(m, (n - 1) as nat))
    }
}

/// Performs one instruction cycle on a machine, returning the updated
/// machine plus any fault: the execution service's own fault on a safe
/// state, and a fault of the controller's on a state the service cannot
/// execute without leaving the range of its arithmetic.  A faulting cycle
/// leaves the machine exactly as it was: the mutation is all or nothing.
pub fn iterate_model(model: &MachineState) -> (r: (MachineState, Option<ExecutionFault>))
    requires
        model.wf(),
    ensures
        r.0.wf(),
        r.0@ == cycle_of(model@),
        step_safe(model@) ==> step_of(model@) == (
            r.0@,
            match r.1 {
                Some(f) => Some(f.at),
                None => None,
            },
        ),
        !step_safe(model@) ==> match r.1 {
            Some(f) => f.at == model@.instruction_address,
            None => false,
        },
        r.1 is Some ==> r.0@ == model@,
{
    if crate::machine::step_is_safe(model) {
        step_machine(model)
    } else {
        (model.clone(), Some(ExecutionFault { at: model.instruction_address }))
    }
}

/// Whether the control loop must hand over to a debug session before the
/// next cycle: exactly when the break set holds the address the upcoming
/// cycle will execute, or a fault is pending and debugging on faults is
/// switched on.
pub fn should_debug(model: &MachineState, conf: &Run, err_opt: &Option<ExecutionFault>) -> (r:
    bool)
    ensures
        r == (conf@.break_addr.contains(model@.instruction_address as usize) || (
        conf@.debug_on_err && err_opt is Some)),
{
    let has_hit_bp = crate::sets::contains_item(
        &conf.break_addr,
        &(model.instruction_address as usize),
    );
    let debug_on_err = conf.debug_on_err && err_opt.is_some();
    has_hit_bp || debug_on_err
}

/// Hands over to a debug session when the suspend condition asks for one
/// or a single step is pending, and continues otherwise.
pub fn check_run_debug<I: Interface>(
    debug_next: bool,
    model: MachineState,
    conf: Run,
    err_opt: &Option<ExecutionFault>,
    iface: &I,
) -> (r: DebugResult)
    requires
        model.wf(),
        conf.wf(),
    ensures
        match r {
            DebugResult::Continue(m, c) => m.wf() && c.wf(),
            DebugResult::SingleStep(m, c) => m.wf() && c.wf(),
            DebugResult::End(m, c) => m.wf() && c.wf() && halted(m@),
        },
        !(debug_next || (conf@.break_addr.contains(model@.instruction_address as usize)
            || (conf@.debug_on_err && err_opt is Some))) ==> r == DebugResult::Continue(
            model,
            conf,
        ),
{
    if should_debug(&model, &conf, err_opt) || debug_next {
        check_debug_session(&model, &conf, iface)
    } else {
        DebugResult::Continue(model, conf)
    }
}

/// Drives the machine until it halts: each cycle first enters a debug
/// session when a single step is pending, the upcoming instruction
/// address is in the break set, or a fault is pending with debugging on
/// faults switched on; then performs one instruction cycle and stops as
/// soon as the instruction register holds the halt opcode.
///
/// Returns the final machine and configuration and the number of cycles
/// performed.  The loop is bounded by the largest count a 64-bit counter
/// holds; whenever it stops short of that bound, the returned machine is
/// halted.  On a quiet run — an empty break set and debugging on faults
/// switched off, so that no debug session can ever be entered — the
/// configuration comes back untouched and the returned machine is exactly
/// the controller's cycle function iterated from the input, with no
/// earlier cycle halted: the loop continues for every instruction value
/// other than the halt opcode.
#[verifier::loop_isolation(false)]
pub fn run_to_halt<I: Interface>(model: MachineState, conf: Run, iface: &I) -> (r: (
    MachineState,
    Run,
    u64,
))
    requires
        model.wf(),
        conf.wf(),
    ensures
        r.0.wf(),
        r.1.wf(),
        r.2 < 0xFFFF_FFFF_FFFF_FFFFu64 ==> halted(r.0@),
        (conf@.break_addr.len() == 0 && !conf@.debug_on_err) ==> {
            &&& r.1@ == conf@
            &&& 1 <= r.2
            &&& r.0@ == cycles_of(model@, r.2 as nat)
            &&& forall|k: int| 1 <= k < r.2 ==> !halted(#[trigger] cycles_of(model@, k as nat))
        },
{
    let ghost m0 = model@;
    let ghost c0 = conf@;
    let ghost quiet = c0.break_addr.len() == 0 && !c0.debug_on_err;
    let mut model = model;
    let mut conf = conf;
    let mut debug_next: bool = false;
    let mut err_opt: Option<ExecutionFault> = None;
    let mut cycles: u64 = 0;
    while cycles < 0xFFFF_FFFF_FFFF_FFFF
        invariant
            model.wf(),
            conf.wf(),
            quiet == (c0.break_addr.len() == 0 && !c0.debug_on_err),
            quiet ==> conf@ == c0,
            quiet ==> !debug_next,
            quiet ==> model@ == cycles_of(m0, cycles as nat),
            quiet ==> forall|k: int|
                1 <= k <= cycles ==> !halted(#[trigger] cycles_of(m0, k as nat)),
        decreases 0xFFFF_FFFF_FFFF_FFFFu64 - cycles,
    {
        proof {
            if quiet {
                assert(conf@.break_addr.len() == 0);
                assert(!conf@.break_addr.contains(model@.instruction_address as usize));
                assert(!(debug_next || (conf@.break_addr.contains(
                    model@.instruction_address as usize,
                ) || (conf@.debug_on_err && err_opt is Some))));
            }
        }
        let debug_res = check_run_debug(debug_next, model, conf, &err_opt, iface);
        match debug_res {
            DebugResult::Continue(m, c) => {
                debug_next = false;
                model = m;
                conf = c;
            },
            DebugResult::SingleStep(m, c) => {
                debug_next = true;
                model = m;
                conf = c;
            },
            DebugResult::End(m, c) => {
                return (m, c, cycles);
            },
        }
        let stepped = iterate_model(&model);
        proof {
            assert(cycles_of(m0, (cycles + 1) as nat) == cycle_of(cycles_of(m0, cycles as nat)));
        }
        model = stepped.0;
        err_opt = stepped.1;
        cycles = cycles + 1;
        if should_halt(&model) {
            return (model, conf, cycles);
        }
    }
    (model, conf, cycles)
}

/// Runs a model from a program image until a stop condition is met, then
/// outputs the final machine as the configuration asks.
pub fn run_model<I: Interface>(conf: Run, stack: ProgramStack, interface: &I)
    requires
        conf.wf(),
        stack@.len() == 32,
{
    let model = MachineState::new_with_program(stack);
    let ended = run_to_halt(model, conf, interface);
    let model = ended.0;
    let conf = ended.1;
    proof {
        assert(forall|k: int|
            0 <= k < conf.output_addr@.len() ==> conf@.output_addr[k] < 32);
    }
    output_model(&conf.output_regs, &conf.output_addr, conf.output_model, &model, interface);
}

} // verus!
