use ssemu::args::Registers;
use ssemu::run::debug::utils;

#[test]
fn test_parse_register() {
    assert_eq!(utils::parse_register("   accumulator   "), Ok(Registers::Accumulator));
    assert_eq!(utils::parse_register("   instruction   "), Ok(Registers::Instruction));
    assert_eq!(utils::parse_register("   InstructionAddress   "), Ok(Registers::InstructionAddress));
    assert_eq!(utils::parse_register("   foo   "), Err(format!("foo")));
}

#[test]
fn test_parse_registers() {
    assert_eq!(
        utils::parse_registers("   accumulator   ,  instruction  ,  InstructionAddress   "),
        Ok(vec![Registers::Accumulator, Registers::Instruction, Registers::InstructionAddress])
    );
    assert_eq!(
        utils::parse_registers("   accumulator   ,  instruction  ,  InstructionAddress,  foo   "),
        Err(format!("foo"))
    );
}

#[test]
fn test_parse_memory_address() {
    assert_eq!(utils::parse_memory_address("   0xa   "), Ok(10));
    assert_eq!(utils::parse_memory_address("   0O12   "), Ok(10));
    assert_eq!(utils::parse_memory_address("   0b1010   "), Ok(10));
    assert_eq!(utils::parse_memory_address("   0d10   "), Ok(10));
    assert_eq!(utils::parse_memory_address("   10   "), Ok(10));
    assert_eq!(utils::parse_memory_address("   foo   "), Err(format!("foo")));
    match utils::parse_memory_address("   33   ") {
        Err(e) => assert_eq!(e, format!("Value passed output memory address: 33, Baby memory address space is 32. ")),
        Ok(_) => panic!("Incorect memory address sucessfully parsed. "),
    }
}

#[test]
fn test_parse_memory_value() {
    assert_eq!(utils::parse_memory_value("   0xa   "), Ok(10));
    assert_eq!(utils::parse_memory_value("   0O12   "), Ok(10));
    assert_eq!(utils::parse_memory_value("   0b1010   "), Ok(10));
    assert_eq!(utils::parse_memory_value("   0d10   "), Ok(10));
    assert_eq!(utils::parse_memory_value("   10   "), Ok(10));
    assert_eq!(utils::parse_memory_value("   foo   "), Err(format!("foo")));
}

#[test]
fn test_parse_instruction() {
    assert_eq!(utils::parse_instruction("   0xa   "), Ok(10));
    assert_eq!(utils::parse_instruction("   0O12   "), Ok(10));
    assert_eq!(utils::parse_instruction("   0b1010   "), Ok(10));
    assert_eq!(utils::parse_instruction("   0d10   "), Ok(10));
    assert_eq!(utils::parse_instruction("   10   "), Ok(10));
    assert_eq!(utils::parse_instruction("   foo   "), Err(format!("foo")));
}

#[test]
fn test_parse_memory_addresses() {
    assert_eq!(
        utils::parse_memory_addresses(format!("   0xa   ,  0O12  ,  0b1010   ,   0d10   ,   10   ")),
        Ok(vec![10, 10, 10, 10, 10])
    );
    assert_eq!(
        utils::parse_memory_addresses(format!("   10   ,   foo   ")),
        Err(format!("Invalid value passed as output memory address `foo`. "))
    );
    match utils::parse_memory_addresses(format!("   10   ,   33   ")) {
        Err(e) => assert!(e.starts_with("Invalid value passed as output memory address")),
        Ok(_) => panic!("Invalid arg to parse memory addresses succeeded. "),
    }
}

#[test]
fn test_parse_memory_address_bounds() {
    assert_eq!(utils::parse_memory_address("31"), Ok(31));
    assert_eq!(utils::parse_memory_address("0"), Ok(0));
    match utils::parse_memory_address("32") {
        Err(e) => assert_eq!(e, format!("Value passed output memory address: 32, Baby memory address space is 32. ")),
        Ok(_) => panic!("Address on the memory boundary parsed. "),
    }
}

#[test]
fn test_word_values_wrap_and_instructions_overflow() {
    assert_eq!(utils::parse_memory_value("0xFFFFFFFF"), Ok(-1));
    assert_eq!(utils::parse_memory_value("-1"), Ok(-1));
    assert_eq!(utils::parse_memory_value("0x100000000"), Ok(0));
    assert_eq!(utils::parse_memory_value("4294967296"), Ok(0));
    assert_eq!(utils::parse_instruction("0xFFFF"), Ok(0xFFFF));
    assert_eq!(utils::parse_instruction("0x10000"), Err("0x10000".to_owned()));
    assert_eq!(utils::parse_instruction("-1"), Err("-1".to_owned()));
}

#[test]
fn test_empty_and_bare_prefix_rejected() {
    assert_eq!(utils::parse_memory_value(""), Err(String::new()));
    assert_eq!(utils::parse_memory_value("   0x   "), Err("0x".to_owned()));
    assert_eq!(utils::parse_instruction("0b"), Err("0b".to_owned()));
}

#[test]
fn test_parse_startup_addresses() {
    assert_eq!(ssemu::args::parse_output_addresses("0xA"), Ok(10));
    assert!(ssemu::args::parse_output_addresses("foo")
        .unwrap_err()
        .starts_with("Invalid value passed as output memory address"));
    assert_eq!(ssemu::args::parse_breakpoint_addresses("6"), Ok(6));
    assert!(ssemu::args::parse_breakpoint_addresses("0xZZ")
        .unwrap_err()
        .starts_with("Invalid value passed as breakpoint address"));
}
