use gbemu_rs::config::Config;
use gbemu_rs::cpu::CPU;
use gbemu_rs::debug::{
    command_for, command_kind, has_breakpoint, interpret, outcome, resume, set_breakpoint,
    should_stop, CommandKind, DebuggerCommand, DebuggerRet, Registers,
};

fn machine(debug: bool) -> CPU {
    CPU::new(vec![0u8; 0x8000], None, debug).unwrap()
}

#[test]
fn register_names() {
    assert_eq!(Registers::try_from("A"), Ok(Registers::A));
    assert_eq!(Registers::try_from("a"), Ok(Registers::A));
    assert_eq!(Registers::try_from("b"), Ok(Registers::B));
    assert_eq!(Registers::try_from("C"), Ok(Registers::C));
    assert_eq!(Registers::try_from("d"), Ok(Registers::D));
    assert_eq!(Registers::try_from("E"), Ok(Registers::E));
    assert_eq!(Registers::try_from("f"), Ok(Registers::F));
    assert_eq!(Registers::try_from("H"), Ok(Registers::H));
    assert_eq!(Registers::try_from("l"), Ok(Registers::L));
    assert_eq!(Registers::try_from("SP"), Ok(Registers::SP));
    assert_eq!(Registers::try_from("sp"), Ok(Registers::SP));
    assert_eq!(Registers::try_from("PC"), Ok(Registers::PC));
    assert_eq!(Registers::try_from("pc"), Ok(Registers::PC));
    assert_eq!(Registers::try_from("Sp"), Err("invalid register"));
    assert_eq!(Registers::try_from("g"), Err("invalid register"));
    assert_eq!(Registers::try_from(""), Err("invalid register"));
    assert_eq!(Registers::try_from("AF"), Err("invalid register"));
    assert_eq!(Registers::try_from("spp"), Err("invalid register"));
}

#[test]
fn command_names() {
    assert_eq!(command_kind("p"), CommandKind::Print);
    assert_eq!(command_kind("print"), CommandKind::Print);
    assert_eq!(command_kind("s"), CommandKind::Step);
    assert_eq!(command_kind("step"), CommandKind::Step);
    assert_eq!(command_kind("n"), CommandKind::Step);
    assert_eq!(command_kind("next"), CommandKind::Step);
    assert_eq!(command_kind("l"), CommandKind::List);
    assert_eq!(command_kind("list"), CommandKind::List);
    assert_eq!(command_kind("c"), CommandKind::Continue);
    assert_eq!(command_kind("continue"), CommandKind::Continue);
    assert_eq!(command_kind("b"), CommandKind::Breakpoint);
    assert_eq!(command_kind("bp"), CommandKind::Breakpoint);
    assert_eq!(command_kind("breakpoint"), CommandKind::Breakpoint);
    assert_eq!(command_kind("d"), CommandKind::Display);
    assert_eq!(command_kind("display"), CommandKind::Display);
    assert_eq!(command_kind(""), CommandKind::Unknown);
    assert_eq!(command_kind("P"), CommandKind::Unknown);
    assert_eq!(command_kind("prin"), CommandKind::Unknown);
    assert_eq!(command_kind("printt"), CommandKind::Unknown);
    assert_eq!(command_kind("quit"), CommandKind::Unknown);
}

#[test]
fn commands_from_kind_and_argument() {
    assert_eq!(command_for(CommandKind::Print, false, None), DebuggerCommand::PrintRegisters);
    assert_eq!(command_for(CommandKind::Print, true, Some(7)), DebuggerCommand::PrintByte(7));
    assert_eq!(command_for(CommandKind::Print, true, None), DebuggerCommand::BadNumber);
    assert_eq!(command_for(CommandKind::Step, true, Some(1)), DebuggerCommand::Step);
    assert_eq!(command_for(CommandKind::List, false, None), DebuggerCommand::List);
    assert_eq!(command_for(CommandKind::Continue, false, None), DebuggerCommand::Continue);
    assert_eq!(command_for(CommandKind::Breakpoint, false, None), DebuggerCommand::Usage);
    assert_eq!(command_for(CommandKind::Breakpoint, true, None), DebuggerCommand::BadNumber);
    assert_eq!(
        command_for(CommandKind::Breakpoint, true, Some(0x150)),
        DebuggerCommand::Breakpoint(0x150)
    );
    assert_eq!(command_for(CommandKind::Display, false, None), DebuggerCommand::Usage);
    assert_eq!(command_for(CommandKind::Display, true, None), DebuggerCommand::Display);
    assert_eq!(command_for(CommandKind::Unknown, true, Some(1)), DebuggerCommand::NotFound);
}

#[test]
fn lines_are_interpreted_with_parsed_numbers() {
    assert_eq!(interpret("p", None), DebuggerCommand::PrintRegisters);
    assert_eq!(interpret("print", Some("0x0150")), DebuggerCommand::PrintByte(0x150));
    assert_eq!(interpret("p", Some("65535")), DebuggerCommand::PrintByte(0xFFFF));
    assert_eq!(interpret("p", Some("65536")), DebuggerCommand::BadNumber);
    assert_eq!(interpret("p", Some("0b1010")), DebuggerCommand::PrintByte(10));
    assert_eq!(interpret("p", Some("0o17")), DebuggerCommand::PrintByte(15));
    assert_eq!(interpret("p", Some("0x1_00")), DebuggerCommand::PrintByte(256));
    assert_eq!(interpret("p", Some("pc")), DebuggerCommand::BadNumber);
    assert_eq!(interpret("p", Some("")), DebuggerCommand::BadNumber);
    assert_eq!(interpret("b", Some("0x40")), DebuggerCommand::Breakpoint(0x40));
    assert_eq!(interpret("bp", Some("-1")), DebuggerCommand::BadNumber);
    assert_eq!(interpret("breakpoint", None), DebuggerCommand::Usage);
    assert_eq!(interpret("s", None), DebuggerCommand::Step);
    assert_eq!(interpret("next", Some("3")), DebuggerCommand::Step);
    assert_eq!(interpret("c", None), DebuggerCommand::Continue);
    assert_eq!(interpret("l", None), DebuggerCommand::List);
    assert_eq!(interpret("d", None), DebuggerCommand::Usage);
    assert_eq!(interpret("display", Some("a")), DebuggerCommand::Display);
    assert_eq!(interpret("frobnicate", Some("1")), DebuggerCommand::NotFound);
}

#[test]
fn commands_that_end_the_turn() {
    assert_eq!(outcome(DebuggerCommand::Step), Some(DebuggerRet::Step));
    assert_eq!(outcome(DebuggerCommand::Continue), Some(DebuggerRet::Continue));
    assert_eq!(outcome(DebuggerCommand::List), None);
    assert_eq!(outcome(DebuggerCommand::PrintByte(3)), None);
    assert_eq!(outcome(DebuggerCommand::BadNumber), None);
}

#[test]
fn breakpoints_and_stepping() {
    let mut cpu = machine(true);
    assert!(has_breakpoint(&cpu, 0));
    assert!(!has_breakpoint(&cpu, 0x100));
    assert!(!should_stop(&cpu));
    set_breakpoint(&mut cpu, 0x100);
    assert_eq!(cpu.breakpoints, vec![0u16, 0x100]);
    assert!(has_breakpoint(&cpu, 0x100));
    assert!(should_stop(&cpu));
    cpu.step().unwrap();
    assert!(!should_stop(&cpu));
    resume(&mut cpu, DebuggerRet::Step);
    assert!(cpu.stepping);
    assert!(should_stop(&cpu));
    resume(&mut cpu, DebuggerRet::Continue);
    assert!(!cpu.stepping);
    assert!(!should_stop(&cpu));

    let mut quiet = machine(false);
    set_breakpoint(&mut quiet, 0x100);
    resume(&mut quiet, DebuggerRet::Step);
    assert!(!should_stop(&quiet));
}

#[test]
fn configuration_from_arguments() {
    let none: Vec<String> = vec![];
    assert_eq!(Config::build(&none, false).err(), Some("missing rom path"));
    let only_name = vec![String::from("gbemu")];
    assert_eq!(Config::build(&only_name, false).err(), Some("missing rom path"));
    let with_rom = vec![String::from("gbemu"), String::from("game.gb")];
    let config = Config::build(&with_rom, true).unwrap();
    assert_eq!(config.rom_path, "game.gb");
    assert_eq!(config.boot_rom_path, None);
    assert!(config.debug);
    let with_boot = vec![
        String::from("gbemu"),
        String::from("game.gb"),
        String::from("boot.bin"),
        String::from("ignored"),
    ];
    let config = Config::build(&with_boot, false).unwrap();
    assert_eq!(config.rom_path, "game.gb");
    assert_eq!(config.boot_rom_path, Some(String::from("boot.bin")));
    assert!(!config.debug);
}
