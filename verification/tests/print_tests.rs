use std::sync::atomic::{AtomicUsize, Ordering};
use ssemu::args::{ExecuteFrom, Registers, Run};
use ssemu::interface::Interface;
use ssemu::machine::MachineState;
use ssemu::run::debug::print;
use ssemu::run::debug::print::PRINT_HELP;

pub struct TestInterface {
    pub should_log: String,
    pub should_warn: String,
    pub should_err: String,
}

impl TestInterface {
    pub fn new_logger_test(should_log: &str, should_warn: &str, should_err: &str) -> TestInterface {
        TestInterface {
            should_log: should_log.to_owned(),
            should_warn: should_warn.to_owned(),
            should_err: should_err.to_owned(),
        }
    }
}

impl Interface for TestInterface {
    fn log_msg(&self, msg: String) {
        assert_eq!(self.should_log, msg)
    }
    fn log_inline(&self, _msg: String) {}
    fn log_warn(&self, msg: String) {
        assert_eq!(self.should_warn, msg)
    }
    fn log_error(&self, msg: String) {
        assert_eq!(self.should_err, msg)
    }
    fn get_line(&self) -> String {
        String::new()
    }
    fn read_fs_string(&self, _path: &String) -> Result<String, ()> {
        Err(())
    }
    fn read_fs_bytes(&self, _path: &String) -> Result<Vec<u8>, ()> {
        Err(())
    }
    fn write_fs_string(&self, _data: String, _out: &String) -> Result<(), ()> {
        Ok(())
    }
    fn write_fs_bytes(&self, _data: Vec<u8>, _out: &String) -> Result<(), ()> {
        Ok(())
    }
}

pub struct TestApplyInterface {
    should_log: fn(String) -> (),
    should_warn: fn(String) -> (),
    should_err: fn(String) -> (),
}

impl TestApplyInterface {
    pub fn new_logger_test(
        should_log: fn(String) -> (),
        should_warn: fn(String) -> (),
        should_err: fn(String) -> (),
    ) -> TestApplyInterface {
        TestApplyInterface { should_log, should_warn, should_err }
    }
}

impl Interface for TestApplyInterface {
    fn log_msg(&self, msg: String) {
        (self.should_log)(msg)
    }
    fn log_inline(&self, _msg: String) {}
    fn log_warn(&self, msg: String) {
        (self.should_warn)(msg)
    }
    fn log_error(&self, msg: String) {
        (self.should_err)(msg)
    }
    fn get_line(&self) -> String {
        String::new()
    }
    fn read_fs_string(&self, _path: &String) -> Result<String, ()> {
        Err(())
    }
    fn read_fs_bytes(&self, _path: &String) -> Result<Vec<u8>, ()> {
        Err(())
    }
    fn write_fs_string(&self, _data: String, _out: &String) -> Result<(), ()> {
        Ok(())
    }
    fn write_fs_bytes(&self, _data: Vec<u8>, _out: &String) -> Result<(), ()> {
        Ok(())
    }
}

pub struct TestSucessiveInterface {
    pub log_count: AtomicUsize,
    pub should_log: Vec<String>,
    pub warn_count: AtomicUsize,
    pub should_warn: Vec<String>,
    pub err_count: AtomicUsize,
    pub should_err: Vec<String>,
    pub return_count: AtomicUsize,
    pub line_return: Vec<String>,
}

impl TestSucessiveInterface {
    pub fn new_logger_test(
        should_log: Vec<&str>,
        should_warn: Vec<&str>,
        should_err: Vec<&str>,
    ) -> TestSucessiveInterface {
        TestSucessiveInterface {
            log_count: AtomicUsize::new(0),
            should_log: should_log.iter().map(|v| v.to_string()).collect(),
            warn_count: AtomicUsize::new(0),
            should_warn: should_warn.iter().map(|v| v.to_string()).collect(),
            err_count: AtomicUsize::new(0),
            should_err: should_err.iter().map(|v| v.to_string()).collect(),
            return_count: AtomicUsize::new(0),
            line_return: Vec::new(),
        }
    }
}

impl Interface for TestSucessiveInterface {
    fn log_msg(&self, msg: String) {
        assert_eq!(self.should_log[self.log_count.load(Ordering::Relaxed)], msg);
        self.log_count.fetch_add(1, Ordering::Relaxed);
    }
    fn log_inline(&self, _msg: String) {}
    fn log_warn(&self, msg: String) {
        assert_eq!(self.should_warn[self.warn_count.load(Ordering::Relaxed)], msg);
        self.warn_count.fetch_add(1, Ordering::Relaxed);
    }
    fn log_error(&self, msg: String) {
        assert_eq!(self.should_err[self.err_count.load(Ordering::Relaxed)], msg);
        self.err_count.fetch_add(1, Ordering::Relaxed);
    }
    fn get_line(&self) -> String {
        let res = self.line_return[self.return_count.load(Ordering::Relaxed)].clone();
        self.return_count.fetch_add(1, Ordering::Relaxed);
        res
    }
    fn read_fs_string(&self, _path: &String) -> Result<String, ()> {
        Err(())
    }
    fn read_fs_bytes(&self, _path: &String) -> Result<Vec<u8>, ()> {
        Err(())
    }
    fn write_fs_string(&self, _data: String, _out: &String) -> Result<(), ()> {
        Ok(())
    }
    fn write_fs_bytes(&self, _data: Vec<u8>, _out: &String) -> Result<(), ()> {
        Ok(())
    }
}

fn default_run() -> Run {
    Run {
        src: "foo".to_owned(),
        exe_from: ExecuteFrom::Bin,
        og_notation: false,
        output_model: false,
        debug_on_err: true,
        output_addr: vec![5],
        output_regs: vec![Registers::Accumulator],
        break_addr: vec![6],
    }
}

#[test]
fn test_show_registers() {
    let model = MachineState::new();
    let test_err_int = TestInterface::new_logger_test("", "Invalid register name: foo", "");
    let test_int = TestSucessiveInterface::new_logger_test(
        vec![
            format!("{:#010x}", model.accumulator).as_str(),
            format!(
                "{:#010x} ({})",
                model.instruction,
                baby_emulator::core::instructions::BabyInstruction::from_number(model.instruction).get_instr_description()
            ).as_str(),
            format!("{:#010x}", model.instruction_address).as_str(),
        ],
        vec![],
        vec![],
    );
    print::show_registers(format!("   Accumulator   ,   instruction   ,   InstructionAddress   "), &model, &test_int);
    test_int.log_count.store(0, Ordering::Relaxed);
    print::show_registers(format!("      "), &model, &test_int);
    print::show_registers(format!("   Accumulator   ,   foo   "), &model, &test_err_int);
}

#[test]
fn test_show_memory_addresses() {
    let model = MachineState::new();
    let apply_int = TestApplyInterface::new_logger_test(
        |v| assert!(v.starts_with("Invalid memory address:")),
        |v| assert!(v.starts_with("Invalid memory address:")),
        |_| {},
    );
    let mut should_log: Vec<String> = Vec::new();
    for v in 0..32usize {
        should_log.push(format!("{:#04x}: {:#010x}", v, model.main_store[v & 0x1F]));
    }
    let mut test_int = TestSucessiveInterface::new_logger_test(
        vec![
            format!("{:#04x}: {:#010x}", 0, model.main_store[0 & 0x1F]).as_str(),
            format!("{:#04x}: {:#010x}", 1, model.main_store[1 & 0x1F]).as_str(),
            format!("{:#04x}: {:#010x}", 2, model.main_store[2 & 0x1F]).as_str(),
            format!("{:#04x}: {:#010x}", 10, model.main_store[10 & 0x1F]).as_str(),
        ],
        vec![],
        vec![],
    );
    print::show_memory_addresses(format!("   0   ,   0b1   ,   0o2   ,   0xA   "), &model, &test_int);
    test_int.log_count.store(0, Ordering::Relaxed);
    test_int.should_log = should_log;
    print::show_memory_addresses(format!("      "), &model, &test_int);
    print::show_memory_addresses(format!("   0   ,   0xY   "), &model, &apply_int);
}

#[test]
fn test_print_addresses() {
    let addrs = vec![0, 1, 2, 3];
    let mut test_int = TestInterface::new_logger_test("", "", "");
    test_int.should_log = addrs.iter()
        .map(|v| format!("{:#04x}", v))
        .collect::<Vec<String>>()
        .join(", ");
    print::print_addresses(&addrs, &test_int);
}

#[test]
fn test_print_registers() {
    let regs = vec![Registers::Accumulator, Registers::Instruction, Registers::InstructionAddress];
    let mut test_int = TestInterface::new_logger_test("", "", "");
    test_int.should_log = regs.iter()
        .map(|v| format!("{:?}", v))
        .collect::<Vec<String>>()
        .join(", ");
    print::print_registers(&regs, &test_int);
}

#[test]
fn test_print_help() {
    let conf = default_run();
    let model = MachineState::new();
    let test_int = TestInterface::new_logger_test(
        format!("{}", PRINT_HELP).as_str(),
        "",
        "",
    );
    print::print(format!("   help   "), &conf, &model, &test_int);
    print::print(format!("   h   "), &conf, &model, &test_int);
}

#[test]
fn test_print_err() {
    let conf = default_run();
    let model = MachineState::new();
    let test_int = TestApplyInterface::new_logger_test(
        |_| {},
        |s| assert!(s.starts_with("No recognised print command")),
        |_| {},
    );
    print::print(format!("   foo   "), &conf, &model, &test_int);
}

#[test]
fn test_print_registers_on_fresh_machine() {
    let model = MachineState::new();
    let test_int = TestSucessiveInterface::new_logger_test(
        vec![
            "0x00000000",
            format!(
                "0x00000000 ({})",
                baby_emulator::core::instructions::BabyInstruction::from_number(0).get_instr_description()
            ).as_str(),
            "0x00000000",
        ],
        vec![],
        vec![],
    );
    print::show_registers(
        format!("accumulator,instruction,instructionaddress"),
        &model,
        &test_int,
    );
    assert_eq!(test_int.log_count.load(Ordering::Relaxed), 3);
}

#[test]
fn test_instruction_description_follows_value() {
    let mut model = MachineState::new();
    model.instruction = 0xE000;
    let test_int = TestSucessiveInterface::new_logger_test(
        vec![format!(
            "0x0000e000 ({})",
            baby_emulator::core::instructions::BabyInstruction::from_number(0xE000).get_instr_description()
        ).as_str()],
        vec![],
        vec![],
    );
    print::show_registers(format!("instruction"), &model, &test_int);
    assert_eq!(
        baby_emulator::core::instructions::BabyInstruction::from_number(0xE000).get_instr_description(),
        "stop instruction"
    );
    assert_ne!(
        baby_emulator::core::instructions::BabyInstruction::from_number(0).get_instr_description(),
        baby_emulator::core::instructions::BabyInstruction::from_number(0xE000).get_instr_description()
    );
}
