//! The decisions of the debugger: which register a name means, which
//! command a line asks for, and when the processor is to stop for it. Reading
//! lines and printing are left to the caller.

use vstd::prelude::*;
use vstd::slice::slice_index_get;
use vstd::string::StringSliceAdditionalSpecFns;
use crate::cpu::CPU;
use crate::machine::CpuView;

verus! {

/// How execution goes on after the debugger returns.
#[derive(Debug, Clone, Copy, PartialEq, Eq, Structural)]
pub enum DebuggerRet {
    Step,
    Continue,
}

/// The registers that the debugger knows by name.
#[derive(Debug, Clone, Copy, PartialEq, Eq, Structural)]
pub enum Registers {
    A,
    B,
    C,
    D,
    E,
    F,
    H,
    L,
    SP,
    PC,
}

/// What a line typed at the debugger asks for.
#[derive(Debug, Clone, Copy, PartialEq, Eq, Structural)]
pub enum DebuggerCommand {
    /// Show the registers.
    PrintRegisters,
    /// Show the byte at an address.
    PrintByte(u16),
    /// Run one instruction and come back.
    Step,
    /// Show the bytes around the program counter.
    List,
    /// Run until the next breakpoint.
    Continue,
    /// Stop whenever the program counter reaches an address.
    Breakpoint(u16),
    /// Show a register.
    Display,
    /// The argument is no number.
    BadNumber,
    /// The command lacks its argument.
    Usage,
    /// There is no such command.
    NotFound,
}

/// The commands by kind, whatever their spelling.
#[derive(Debug, Clone, Copy, PartialEq, Eq, Structural)]
pub enum CommandKind {
    Print,
    Step,
    List,
    Continue,
    Breakpoint,
    Display,
    Unknown,
}

/// The 16-bit number that a piece of text stands for, as the number parser
/// reads it: decimal, or hexadecimal, octal or binary after the prefix `0x`,
/// `0o` or `0b`, with underscores allowed between digits and white space
/// around the whole ignored; `None` where the text is no such number or the
/// number does not fit.
pub uninterp spec fn parsed_address(text: Seq<char>) -> Option<u16>;

/// Reads `text` as a 16-bit number with `parse_int::parse`. The result is
/// the parser's own; this function only drops the detail of a failure.
#[verifier::external_body]
fn parse_address(text: &str) -> (address: Option<u16>)
    ensures
        address == parsed_address(text@),
{
    match parse_int::parse::<u16>(text) {
        Ok(a) => Some(a),
        Err(_) => None,
    }
}

/// The register that a name made of the bytes `name` means: one of the
/// letters `A B C D E F H L` or the pairs `SP` and `PC`, all in upper or all in
/// lower case.
pub open spec fn register_named(name: Seq<u8>) -> Option<Registers> {
    if name.len() == 1 {
        let c = name[0];
        if c == 0x41 || c == 0x61 {
            Some(Registers::A)
        } else if c == 0x42 || c == 0x62 {
            Some(Registers::B)
        } else if c == 0x43 || c == 0x63 {
            Some(Registers::C)
        } else if c == 0x44 || c == 0x64 {
            Some(Registers::D)
        } else if c == 0x45 || c == 0x65 {
            Some(Registers::E)
        } else if c == 0x46 || c == 0x66 {
            Some(Registers::F)
        } else if c == 0x48 || c == 0x68 {
            Some(Registers::H)
        } else if c == 0x4C || c == 0x6C {
            Some(Registers::L)
        } else {
            None
        }
    } else if name.len() == 2 {
        if (name[0] == 0x53 && name[1] == 0x50) || (name[0] == 0x73 && name[1] == 0x70) {
            Some(Registers::SP)
        } else if (name[0] == 0x50 && name[1] == 0x43) || (name[0] == 0x70 && name[1] == 0x63) {
            Some(Registers::PC)
        } else {
            None
        }
    } else {
        None
    }
}

impl Registers {
    /// The register that `value` names, or an error for a text that names
    /// none.
    pub fn try_from(value: &str) -> (r: Result<Registers, &'static str>)
        ensures
            r is Ok <==> register_named(value.spec_bytes()) is Some,
            r is Ok ==> Some(r->Ok_0) == register_named(value.spec_bytes()),
            r is Err ==> r == Err::<Registers, &'static str>("invalid register"),
    {
        let name = value.as_bytes();
        let found = if name.len() == 1 {
            let c = *slice_index_get(name, 0);
            match c {
                0x41 | 0x61 => Some(Registers::A),
                0x42 | 0x62 => Some(Registers::B),
                0x43 | 0x63 => Some(Registers::C),
                0x44 | 0x64 => Some(Registers::D),
                0x45 | 0x65 => Some(Registers::E),
                0x46 | 0x66 => Some(Registers::F),
                0x48 | 0x68 => Some(Registers::H),
                0x4C | 0x6C => Some(Registers::L),
                _ => None,
            }
        } else if name.len() == 2 {
            let c = *slice_index_get(name, 0);
            let d = *slice_index_get(name, 1);
            if (c == 0x53 && d == 0x50) || (c == 0x73 && d == 0x70) {
                Some(Registers::SP)
            } else if (c == 0x50 && d == 0x43) || (c == 0x70 && d == 0x63) {
                Some(Registers::PC)
            } else {
                None
            }
        } else {
            None
        };
        match found {
            Some(register) => Ok(register),
            None => Err("invalid register"),
        }
    }
}

/// The kind of command that the bytes `word` name. Each command has a short
/// and a long name: `p`/`print`, `s`/`step`/`n`/`next`, `l`/`list`,
/// `c`/`continue`, `b`/`bp`/`breakpoint`, `d`/`display`.
pub open spec fn command_named(word: Seq<u8>) -> CommandKind {
    if word == seq![0x70u8] || word == seq![0x70u8, 0x72, 0x69, 0x6E, 0x74] {
        CommandKind::Print
    } else if word == seq![0x73u8] || word == seq![0x73u8, 0x74, 0x65, 0x70] || word == seq![
        0x6Eu8,
    ] || word == seq![0x6Eu8, 0x65, 0x78, 0x74] {
        CommandKind::Step
    } else if word == seq![0x6Cu8] || word == seq![0x6Cu8, 0x69, 0x73, 0x74] {
        CommandKind::List
    } else if word == seq![0x63u8] || word == seq![
        0x63u8,
        0x6F,
        0x6E,
        0x74,
        0x69,
        0x6E,
        0x75,
        0x65,
    ] {
        CommandKind::Continue
    } else if word == seq![0x62u8] || word == seq![0x62u8, 0x70] || word == seq![
        0x62u8,
        0x72,
        0x65,
        0x61,
        0x6B,
        0x70,
        0x6F,
        0x69,
        0x6E,
        0x74,
    ] {
        CommandKind::Breakpoint
    } else if word == seq![0x64u8] || word == seq![
        0x64u8,
        0x69,
        0x73,
        0x70,
        0x6C,
        0x61,
        0x79,
    ] {
        CommandKind::Display
    } else {
        CommandKind::Unknown
    }
}

/// Whether the bytes of `word` are exactly `text`.
fn is_word(word: &[u8], text: &[u8]) -> (same: bool)
    ensures
        same == (word@ == text@),
{
    if word.len() != text.len() {
        return false;
    }
    let mut i: usize = 0;
    while i < word.len()
        invariant
            i <= word.len(),
            word.len() == text.len(),
            forall|j: int| 0 <= j < i ==> word@[j] == text@[j],
        decreases word.len() - i,
    {
        if *slice_index_get(word, i) != *slice_index_get(text, i) {
            return false;
        }
        i += 1;
    }
    proof {
        assert(word@ =~= text@);
    }
    true
}

/// The kind of command that `word` names.
pub fn command_kind(word: &str) -> (kind: CommandKind)
    ensures
        kind == command_named(word.spec_bytes()),
{
    let w = word.as_bytes();
    let p: [u8; 1] = [0x70];
    let print: [u8; 5] = [0x70, 0x72, 0x69, 0x6E, 0x74];
    let s: [u8; 1] = [0x73];
    let step: [u8; 4] = [0x73, 0x74, 0x65, 0x70];
    let n: [u8; 1] = [0x6E];
    let next: [u8; 4] = [0x6E, 0x65, 0x78, 0x74];
    let l: [u8; 1] = [0x6C];
    let list: [u8; 4] = [0x6C, 0x69, 0x73, 0x74];
    let c: [u8; 1] = [0x63];
    let cont: [u8; 8] = [0x63, 0x6F, 0x6E, 0x74, 0x69, 0x6E, 0x75, 0x65];
    let b: [u8; 1] = [0x62];
    let bp: [u8; 2] = [0x62, 0x70];
    let breakpoint: [u8; 10] = [0x62, 0x72, 0x65, 0x61, 0x6B, 0x70, 0x6F, 0x69, 0x6E, 0x74];
    let d: [u8; 1] = [0x64];
    let display: [u8; 7] = [0x64, 0x69, 0x73, 0x70, 0x6C, 0x61, 0x79];
    proof {
        assert(p@ =~= seq![0x70u8]);
        assert(print@ =~= seq![0x70u8, 0x72, 0x69, 0x6E, 0x74]);
        assert(s@ =~= seq![0x73u8]);
        assert(step@ =~= seq![0x73u8, 0x74, 0x65, 0x70]);
        assert(n@ =~= seq![0x6Eu8]);
        assert(next@ =~= seq![0x6Eu8, 0x65, 0x78, 0x74]);
        assert(l@ =~= seq![0x6Cu8]);
        assert(list@ =~= seq![0x6Cu8, 0x69, 0x73, 0x74]);
        assert(c@ =~= seq![0x63u8]);
        assert(cont@ =~= seq![0x63u8, 0x6F, 0x6E, 0x74, 0x69, 0x6E, 0x75, 0x65]);
        assert(b@ =~= seq![0x62u8]);
        assert(bp@ =~= seq![0x62u8, 0x70]);
        assert(breakpoint@ =~= seq![0x62u8, 0x72, 0x65, 0x61, 0x6B, 0x70, 0x6F, 0x69, 0x6E, 0x74]);
        assert(d@ =~= seq![0x64u8]);
        assert(display@ =~= seq![0x64u8, 0x69, 0x73, 0x70, 0x6C, 0x61, 0x79]);
    }
    if is_word(w, p.as_slice()) || is_word(w, print.as_slice()) {
        CommandKind::Print
    } else if is_word(w, s.as_slice()) || is_word(w, step.as_slice()) || is_word(w, n.as_slice())
        || is_word(w, next.as_slice()) {
        CommandKind::Step
    } else if is_word(w, l.as_slice()) || is_word(w, list.as_slice()) {
        CommandKind::List
    } else if is_word(w, c.as_slice()) || is_word(w, cont.as_slice()) {
        CommandKind::Continue
    } else if is_word(w, b.as_slice()) || is_word(w, bp.as_slice()) || is_word(
        w,
        breakpoint.as_slice(),
    ) {
        CommandKind::Breakpoint
    } else if is_word(w, d.as_slice()) || is_word(w, display.as_slice()) {
        CommandKind::Display
    } else {
        CommandKind::Unknown
    }
}

/// The command that a kind and its argument make. `given` says whether the
/// line had an argument, `number` is what the number parser made of it.
/// Printing without an argument shows the registers; a breakpoint and a
/// display need their argument; an argument that should be a number and is
/// none makes a bad number.
pub open spec fn command_of(kind: CommandKind, given: bool, number: Option<u16>) -> DebuggerCommand {
    match kind {
        CommandKind::Print => if !given {
            DebuggerCommand::PrintRegisters
        } else {
            match number {
                Some(a) => DebuggerCommand::PrintByte(a),
                None => DebuggerCommand::BadNumber,
            }
        },
        CommandKind::Step => DebuggerCommand::Step,
        CommandKind::List => DebuggerCommand::List,
        CommandKind::Continue => DebuggerCommand::Continue,
        CommandKind::Breakpoint => if !given {
            DebuggerCommand::Usage
        } else {
            match number {
                Some(a) => DebuggerCommand::Breakpoint(a),
                None => DebuggerCommand::BadNumber,
            }
        },
        CommandKind::Display => if !given {
            DebuggerCommand::Usage
        } else {
            DebuggerCommand::Display
        },
        CommandKind::Unknown => DebuggerCommand::NotFound,
    }
}

/// The command that a kind and its argument make; see `command_of`.
pub fn command_for(kind: CommandKind, given: bool, number: Option<u16>) -> (command:
    DebuggerCommand)
    ensures
        command == command_of(kind, given, number),
{
    match kind {
        CommandKind::Print => {
            if !given {
                DebuggerCommand::PrintRegisters
            } else {
                match number {
                    Some(a) => DebuggerCommand::PrintByte(a),
                    None => DebuggerCommand::BadNumber,
                }
            }
        },
        CommandKind::Step => DebuggerCommand::Step,
        CommandKind::List => DebuggerCommand::List,
        CommandKind::Continue => DebuggerCommand::Continue,
        CommandKind::Breakpoint => {
            if !given {
                DebuggerCommand::Usage
            } else {
                match number {
                    Some(a) => DebuggerCommand::Breakpoint(a),
                    None => DebuggerCommand::BadNumber,
                }
            }
        },
        CommandKind::Display => {
            if !given {
                DebuggerCommand::Usage
            } else {
                DebuggerCommand::Display
            }
        },
        CommandKind::Unknown => DebuggerCommand::NotFound,
    }
}

/// The number that an argument stands for, if there is an argument.
pub open spec fn argument_number(argument: Option<&str>) -> Option<u16> {
    match argument {
        Some(text) => parsed_address(text@),
        None => None,
    }
}

/// The command that a line asks for, given its first word and, if it has
/// one, its second.
pub fn interpret(word: &str, argument: Option<&str>) -> (command: DebuggerCommand)
    ensures
        command == command_of(
            command_named(word.spec_bytes()),
            argument is Some,
            argument_number(argument),
        ),
{
    let kind = command_kind(word);
    match argument {
        Some(text) => {
            let number = parse_address(text);
            command_for(kind, true, number)
        },
        None => command_for(kind, false, None),
    }
}

/// How execution goes on after a command, if the command ends the
/// debugger's turn: stepping and continuing do, everything else waits for the
/// next line.
pub fn outcome(command: DebuggerCommand) -> (ret: Option<DebuggerRet>)
    ensures
        ret == (match command {
            DebuggerCommand::Step => Some(DebuggerRet::Step),
            DebuggerCommand::Continue => Some(DebuggerRet::Continue),
            _ => None,
        }),
{
    match command {
        DebuggerCommand::Step => Some(DebuggerRet::Step),
        DebuggerCommand::Continue => Some(DebuggerRet::Continue),
        _ => None,
    }
}

/// Adds a breakpoint at `address`.
pub fn set_breakpoint(cpu: &mut CPU, address: u16)
    ensures
        final(cpu)@ == (CpuView { breakpoints: old(cpu)@.breakpoints.push(address), ..old(cpu)@ }),
        final(cpu).wf() == old(cpu).wf(),
{
    cpu.breakpoints.push(address);
}

/// Whether `address` is a breakpoint.
pub fn has_breakpoint(cpu: &CPU, address: u16) -> (found: bool)
    ensures
        found == cpu@.breakpoints.contains(address),
{
    let mut i: usize = 0;
    while i < cpu.breakpoints.len()
        invariant
            i <= cpu.breakpoints.len(),
            forall|j: int| 0 <= j < i ==> cpu.breakpoints@[j] != address,
        decreases cpu.breakpoints.len() - i,
    {
        if cpu.breakpoints[i] == address {
            return true;
        }
        i += 1;
    }
    false
}

/// Whether the processor is to stop for the debugger before its next
/// instruction: the debugger is on, and either the program counter is at a
/// breakpoint or the last command was a step.
pub fn should_stop(cpu: &CPU) -> (stop: bool)
    ensures
        stop == (cpu@.debug && (cpu@.breakpoints.contains(cpu@.reg.pc) || cpu@.stepping)),
{
    cpu.debug && (has_breakpoint(cpu, cpu.reg.pc) || cpu.stepping)
}

/// Records how the debugger's turn ended: after a step the processor stops
/// again before the next instruction.
pub fn resume(cpu: &mut CPU, ret: DebuggerRet)
    ensures
        final(cpu)@ == (CpuView { stepping: ret == DebuggerRet::Step, ..old(cpu)@ }),
        final(cpu).wf() == old(cpu).wf(),
{
    cpu.stepping = match ret {
        DebuggerRet::Step => true,
        DebuggerRet::Continue => false,
    };
}

} // verus!
