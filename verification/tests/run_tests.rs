use std::collections::HashMap;
use std::sync::atomic::{AtomicUsize, Ordering};
use ssemu::args::{Assemble, ExecuteFrom, Registers, Run};
use ssemu::interface::Interface;
use ssemu::machine::{MachineState, HALT_OPCODE, MEMORY_WORDS};
use ssemu::run::errors::RunError;
use ssemu::run::execution::run_to_halt;
use ssemu::run::srcfile::get_src;

pub struct RunInterface {
    pub log_count: AtomicUsize,
    pub should_log: Vec<String>,
    pub return_count: AtomicUsize,
    pub line_return: Vec<String>,
    pub string_files: HashMap<String, String>,
    pub bin_files: HashMap<String, Vec<u8>>,
    pub should_write_addr: String,
    pub should_write_data: Vec<u8>,
    pub should_write_str_addr: String,
    pub should_write_str_data: String,
}

impl RunInterface {
    pub fn new(should_log: Vec<&str>, line_return: Vec<&str>) -> RunInterface {
        RunInterface {
            log_count: AtomicUsize::new(0),
            should_log: should_log.iter().map(|v| v.to_string()).collect(),
            return_count: AtomicUsize::new(0),
            line_return: line_return.iter().map(|v| v.to_string()).collect(),
            string_files: HashMap::new(),
            bin_files: HashMap::new(),
            should_write_addr: String::new(),
            should_write_data: Vec::new(),
            should_write_str_addr: String::new(),
            should_write_str_data: String::new(),
        }
    }
}

impl Interface for RunInterface {
    fn log_msg(&self, msg: String) {
        assert_eq!(self.should_log[self.log_count.load(Ordering::Relaxed)], msg);
        self.log_count.fetch_add(1, Ordering::Relaxed);
    }
    fn log_inline(&self, _msg: String) {}
    fn log_warn(&self, _msg: String) {}
    fn log_error(&self, _msg: String) {}
    fn get_line(&self) -> String {
        let res = self.line_return[self.return_count.load(Ordering::Relaxed)].clone();
        self.return_count.fetch_add(1, Ordering::Relaxed);
        res
    }
    fn read_fs_string(&self, path: &String) -> Result<String, ()> {
        match self.string_files.get(path) {
            Some(v) => Ok(v.clone()),
            None => Err(()),
        }
    }
    fn read_fs_bytes(&self, path: &String) -> Result<Vec<u8>, ()> {
        match self.bin_files.get(path) {
            Some(v) => Ok(v.clone()),
            None => Err(()),
        }
    }
    fn write_fs_string(&self, data: String, out: &String) -> Result<(), ()> {
        assert_eq!(self.should_write_str_addr, *out);
        assert_eq!(self.should_write_str_data, data);
        Ok(())
    }
    fn write_fs_bytes(&self, data: Vec<u8>, out: &String) -> Result<(), ()> {
        assert_eq!(self.should_write_addr, *out);
        assert_eq!(self.should_write_data, data);
        Ok(())
    }
}

fn quiet_run(break_addr: Vec<usize>) -> Run {
    Run {
        src: "foo".to_owned(),
        exe_from: ExecuteFrom::Bin,
        og_notation: false,
        output_model: false,
        debug_on_err: false,
        output_addr: vec![],
        output_regs: vec![],
        break_addr,
    }
}

const CMP: i32 = 0x6000;
const STOP: i32 = 0xE000;

#[test]
fn test_breakpoint_enters_debug_before_execution() {
    let mut store = vec![CMP; 32];
    store[7] = STOP;
    let model = MachineState::new_with_program(store);
    let conf = quiet_run(vec![6]);
    let iface = RunInterface::new(vec!["Debug"], vec!["continue"]);
    let (end, _conf, cycles) = run_to_halt(model, conf, &iface);
    assert_eq!(iface.log_count.load(Ordering::Relaxed), 1);
    assert_eq!(cycles, 7);
    assert_eq!(end.instruction, HALT_OPCODE);
    assert_eq!(end.instruction_address, 7);
}

#[test]
fn test_no_breakpoint_no_debug() {
    let mut store = vec![CMP; 32];
    store[7] = STOP;
    let model = MachineState::new_with_program(store);
    let conf = quiet_run(vec![20]);
    let iface = RunInterface::new(vec![], vec![]);
    let (end, _conf, cycles) = run_to_halt(model, conf, &iface);
    assert_eq!(iface.log_count.load(Ordering::Relaxed), 0);
    assert_eq!(cycles, 7);
    assert_eq!(end.instruction, HALT_OPCODE);
}

#[test]
fn test_halt_detection() {
    let mut store = vec![CMP; 32];
    store[0] = STOP;
    let model = MachineState::new_with_program(store);
    assert_eq!(model.instruction, 0xE000);
    let conf = quiet_run(vec![]);
    let iface = RunInterface::new(vec![], vec![]);
    let (end, _conf, cycles) = run_to_halt(model, conf, &iface);
    assert_eq!(cycles, 1);
    assert_eq!(end.instruction, HALT_OPCODE);
}

#[test]
fn test_end_command_halts_machine() {
    let store = vec![0i32; 32];
    let model = MachineState::new_with_program(store);
    let conf = quiet_run(vec![0]);
    let iface = RunInterface::new(vec!["Debug"], vec!["end"]);
    let (end, _conf, cycles) = run_to_halt(model, conf, &iface);
    assert_eq!(cycles, 0);
    assert_eq!(end.instruction, HALT_OPCODE);
}

#[test]
fn test_single_step_debugs_again() {
    let mut store = vec![CMP; 32];
    store[3] = STOP;
    let model = MachineState::new_with_program(store);
    let conf = quiet_run(vec![1]);
    let iface = RunInterface::new(vec!["Debug", "Debug"], vec!["next", "continue"]);
    let (end, _conf, cycles) = run_to_halt(model, conf, &iface);
    assert_eq!(iface.log_count.load(Ordering::Relaxed), 2);
    assert_eq!(cycles, 3);
    assert_eq!(end.instruction, HALT_OPCODE);
}

#[test]
fn test_step_executes_instructions() {
    let instrs = vec![
        baby_emulator::core::instructions::BabyInstruction::Negate(2),
        baby_emulator::core::instructions::BabyInstruction::Stop,
        baby_emulator::core::instructions::BabyInstruction::AbsoluteValue(-10),
    ];
    let store = baby_emulator::core::instructions::BabyInstruction::to_numbers(instrs).to_vec();
    let model = MachineState::new_with_program(store);
    let conf = quiet_run(vec![]);
    let iface = RunInterface::new(vec![], vec![]);
    let (end, _conf, cycles) = run_to_halt(model, conf, &iface);
    assert_eq!(cycles, 1);
    assert_eq!(end.accumulator, 10);
    assert_eq!(end.instruction, HALT_OPCODE);
}

#[test]
fn test_get_src_missing_file() {
    let conf = quiet_run(vec![]);
    let iface = RunInterface::new(vec![], vec![]);
    match get_src(&conf, &iface) {
        Err(e) => assert_eq!(
            e.describe(),
            "Could not open source assembly/binary file: `foo`.".to_owned()
        ),
        Ok(_) => panic!("Missing file read succeeded. "),
    }
}

#[test]
fn test_get_src_wrong_length() {
    let conf = quiet_run(vec![]);
    let mut iface = RunInterface::new(vec![], vec![]);
    iface.bin_files.insert("foo".to_owned(), vec![0u8; 4]);
    match get_src(&conf, &iface) {
        Err(e) => assert_eq!(
            e.describe(),
            "The baby memory is 32 words long, specified file is `1` words long. ".to_owned()
        ),
        Ok(_) => panic!("Wrong-length file read succeeded. "),
    }
}

#[test]
fn test_get_src_from_binary() {
    let conf = quiet_run(vec![]);
    let mut image = vec![0u8; 128];
    image[2] = 0xE0;
    let mut iface = RunInterface::new(vec![], vec![]);
    iface.bin_files.insert("foo".to_owned(), image);
    match get_src(&conf, &iface) {
        Ok(v) => {
            assert_eq!(v.len(), 32);
            assert_eq!(v[0], STOP);
            assert_eq!(v[1], 0);
        },
        Err(_) => panic!("Reading a good binary failed. "),
    }
}

#[test]
fn test_get_src_assembles_source() {
    let mut conf = quiet_run(vec![]);
    conf.exe_from = ExecuteFrom::Asm;
    let mut iface = RunInterface::new(vec![], vec![]);
    iface.string_files.insert("foo".to_owned(), "stp".to_owned());
    match get_src(&conf, &iface) {
        Ok(v) => {
            assert_eq!(v.len(), 32);
            assert_eq!(v[0], STOP);
        },
        Err(_) => panic!("Assembling a good source failed. "),
    }
}

#[test]
fn test_get_src_assembly_rejected() {
    let mut conf = quiet_run(vec![]);
    conf.exe_from = ExecuteFrom::Asm;
    let mut iface = RunInterface::new(vec![], vec![]);
    iface.string_files.insert("foo".to_owned(), "not a real mnemonic".to_owned());
    match get_src(&conf, &iface) {
        Err(e) => assert!(e.describe().starts_with("Error assembling source file. \n")),
        Ok(_) => panic!("Assembling garbage succeeded. "),
    }
}

#[test]
fn test_assemble_writes_image() {
    let mut iface = RunInterface::new(vec![], vec![]);
    iface.string_files.insert("prog".to_owned(), "stp".to_owned());
    iface.should_write_addr = "out.bin".to_owned();
    let mut expected = vec![0u8; 128];
    expected[2] = 0xE0;
    iface.should_write_data = expected;
    let conf = Assemble {
        input: "prog".to_owned(),
        output: Some("out.bin".to_owned()),
        tags: None,
        og_notation: false,
    };
    assert!(ssemu::assemble::assemble(conf, &iface).is_ok());
}

#[test]
fn test_assemble_writes_tags() {
    let mut iface = RunInterface::new(vec![], vec![]);
    iface.string_files.insert("prog".to_owned(), ":foo\nstp".to_owned());
    iface.should_write_addr = "out.bin".to_owned();
    let mut expected = vec![0u8; 128];
    expected[2] = 0xE0;
    iface.should_write_data = expected;
    iface.should_write_str_addr = "tags.json".to_owned();
    iface.should_write_str_data = "{\"foo\":0}".to_owned();
    let conf = Assemble {
        input: "prog".to_owned(),
        output: Some("out.bin".to_owned()),
        tags: Some("tags.json".to_owned()),
        og_notation: false,
    };
    assert!(ssemu::assemble::assemble(conf, &iface).is_ok());
}

#[test]
fn test_constants_match_emulator() {
    assert_eq!(HALT_OPCODE, baby_emulator::core::instructions::BabyInstruction::Stop.to_number() as u16);
    assert_eq!(MEMORY_WORDS, baby_emulator::core::MEMORY_WORDS);
}

#[test]
fn test_execute_runs_binary_to_halt() {
    let conf = Run {
        src: "prog.bin".to_owned(),
        exe_from: ExecuteFrom::Bin,
        og_notation: false,
        output_model: false,
        debug_on_err: false,
        output_addr: vec![],
        output_regs: vec![Registers::Accumulator],
        break_addr: vec![],
    };
    let mut image = vec![0u8; 128];
    image[2] = 0xE0;
    let mut iface = RunInterface::new(vec!["0x00000000"], vec![]);
    iface.bin_files.insert("prog.bin".to_owned(), image);
    assert!(ssemu::run::execute(conf, &iface).is_ok());
    assert_eq!(iface.log_count.load(Ordering::Relaxed), 1);
}

#[test]
fn test_fault_enters_debug_session() {
    // A stop-family instruction that is not the halt opcode itself makes
    // the execution service report a fault without advancing the machine;
    // with debug-on-fault switched on the next cycle must suspend.
    let mut store = vec![CMP; 32];
    store[0] = 0xE005;
    let model = MachineState::new_with_program(store);
    let mut conf = quiet_run(vec![]);
    conf.debug_on_err = true;
    let iface = RunInterface::new(vec!["Debug"], vec!["end"]);
    let (end, _conf, cycles) = run_to_halt(model, conf, &iface);
    assert_eq!(iface.log_count.load(Ordering::Relaxed), 1);
    assert_eq!(cycles, 1);
    assert_eq!(end.instruction, HALT_OPCODE);
}

#[test]
fn test_backward_relative_jump_from_zero_wraps() {
    // A relative jump with a negative offset from address 0 stays inside
    // the range of the emulator's 16-bit addition and wraps to the top of
    // the store.
    let mut store = vec![0i32; 32];
    store[0] = 0x8002;
    store[2] = -1;
    store[31] = 0x6000;
    let model = MachineState::new_with_program(store);
    let (next, fault) = ssemu::run::execution::iterate_model(&model);
    assert!(fault.is_none());
    assert_eq!(next.instruction_address, 31);
    assert_eq!(next.instruction, 0x6000);
}

#[test]
fn test_backward_relative_jump_out_of_range_faults() {
    // From any later address the same jump would overflow the emulator's
    // 16-bit addition; the controller refuses the cycle and reports a
    // fault, leaving the machine untouched.
    let mut store = vec![0x6000; 32];
    store[1] = 0x8002;
    store[2] = -1;
    let model = MachineState::new_with_program(store);
    let (at_one, fault) = ssemu::run::execution::iterate_model(&model);
    assert!(fault.is_none());
    assert_eq!(at_one.instruction_address, 1);
    assert_eq!(at_one.instruction, 0x8002);
    let (next, fault) = ssemu::run::execution::iterate_model(&at_one);
    assert_eq!(fault.map(|f| f.at), Some(1));
    assert_eq!(next, at_one);
}

#[test]
fn test_address_register_at_limit_faults() {
    let mut model = MachineState::new();
    model.instruction_address = 0xFFFF;
    model.instruction = 0x4000;
    let (next, fault) = ssemu::run::execution::iterate_model(&model);
    assert_eq!(fault.map(|f| f.at), Some(0xFFFF));
    assert_eq!(next, model);
}

#[test]
fn test_subtract_overflow_faults() {
    let mut model = MachineState::new();
    model.accumulator = i32::MIN;
    model.instruction = 0x2000;
    model.main_store[0] = 1;
    let (next, fault) = ssemu::run::execution::iterate_model(&model);
    assert_eq!(fault.map(|f| f.at), Some(0));
    assert_eq!(next, model);

    let mut fine = MachineState::new();
    fine.accumulator = 5;
    fine.instruction = 0x2000;
    fine.main_store[0] = 1;
    let (next, fault) = ssemu::run::execution::iterate_model(&fine);
    assert!(fault.is_none());
    assert_eq!(next.accumulator, 4);
}

#[test]
fn test_negate_minimum_word_faults() {
    let mut model = MachineState::new();
    model.instruction = 0x4000;
    model.main_store[0] = i32::MIN;
    let (next, fault) = ssemu::run::execution::iterate_model(&model);
    assert_eq!(fault.map(|f| f.at), Some(0));
    assert_eq!(next, model);
}
