use crate::dis::{instruction_length, Instruction, InstructionArg};
use crate::lameboy::mmu::{Mmu, MmuView};
use crate::text::{hex2, hex4, push_hex2, push_hex4, replace_all, replace_all_str};
use vstd::prelude::*;

verus! {

/// The raw bytes of an instruction in memory, each as `0x` and two hexadecimal digits, separated
/// by spaces: the opcode, then the data after it.
pub open spec fn raw_instruction_text(arg: Option<InstructionArg>, mmu: MmuView, addr: u16) -> Seq<
    char,
> {
    "0x"@ + hex2(mmu.read(addr)) + match arg {
        None => Seq::empty(),
        Some(InstructionArg::Data8) => " 0x"@ + hex2(mmu.read((addr + 1) as u16)),
        Some(InstructionArg::Data16) => " 0x"@ + hex2(mmu.read((addr + 1) as u16)) + " 0x"@
            + hex2(mmu.read((addr + 2) as u16)),
    }
}

/// The mnemonic of an instruction, with its data written in when `read_args`: a byte stands in
/// for `d8` and `r8` as `0x` and two hexadecimal digits and for `a8` as `0xFF00 + ` and the
/// byte, a word stands in for `d16` and `a16` as `0x` and four hexadecimal digits.
pub open spec fn instruction_text(
    name: Seq<char>,
    arg: Option<InstructionArg>,
    read_args: bool,
    mmu: MmuView,
    addr: u16,
) -> Seq<char> {
    if read_args {
        match arg {
            None => name,
            Some(InstructionArg::Data8) => {
                let byte = "0x"@ + hex2(mmu.read((addr + 1) as u16));
                let high_mem = "0xFF00 + 0x"@ + hex2(mmu.read((addr + 1) as u16));
                replace_all(
                    replace_all(replace_all(name, "d8"@, byte), "r8"@, byte),
                    "a8"@,
                    high_mem,
                )
            },
            Some(InstructionArg::Data16) => {
                let data = "0x"@ + hex4(mmu.read16((addr + 1) as u16));
                replace_all(replace_all(name, "d16"@, data), "a16"@, data)
            },
        }
    } else {
        name
    }
}

/// The raw bytes of the instruction at `instruction_addr`, as shown in the disassembly window.
pub fn get_raw_instruction_debug_string(
    instruction: &Instruction,
    mmu: &Mmu,
    instruction_addr: u16,
) -> (s: String)
    requires
        mmu@.wf(),
        instruction_addr + instruction_length(instruction.arg) <= 0x10000,
    ensures
        s@ == raw_instruction_text(instruction.arg, mmu@, instruction_addr),
{
    let mut s = String::from_str("0x");
    push_hex2(&mut s, mmu.read8_safe(instruction_addr));
    match &instruction.arg {
        None => {},
        Some(arg) => match arg {
            InstructionArg::Data8 => {
                s.append(" 0x");
                push_hex2(&mut s, mmu.read8_safe(instruction_addr + 1));
            },
            InstructionArg::Data16 => {
                s.append(" 0x");
                push_hex2(&mut s, mmu.read8_safe(instruction_addr + 1));
                s.append(" 0x");
                push_hex2(&mut s, mmu.read8_safe(instruction_addr + 2));
            },
        },
    }
    s
}

/// The mnemonic of the instruction at `instruction_addr`, with its data read from memory and
/// written in when `read_args`, as shown in the disassembly window.
pub fn get_instruction_debug_string(
    instruction: &Instruction,
    read_args: bool,
    mmu: &Mmu,
    instruction_addr: u16,
) -> (s: String)
    requires
        mmu@.wf(),
        instruction_addr + instruction_length(instruction.arg) <= 0x10000,
    ensures
        s@ == instruction_text(instruction.name@, instruction.arg, read_args, mmu@, instruction_addr),
{
    if read_args {
        match &instruction.arg {
            None => String::from_str(instruction.name),
            Some(arg) => match arg {
                InstructionArg::Data8 => {
                    let value = mmu.read8_safe(instruction_addr + 1);
                    let mut formatted_arg = String::from_str("0x");
                    push_hex2(&mut formatted_arg, value);
                    let mut formatted_addr_arg = String::from_str("0xFF00 + 0x");
                    push_hex2(&mut formatted_addr_arg, value);
                    let name = replace_all_str(instruction.name, "d8", formatted_arg.as_str());
                    let name = replace_all_str(name.as_str(), "r8", formatted_arg.as_str());
                    replace_all_str(name.as_str(), "a8", formatted_addr_arg.as_str())
                },
                InstructionArg::Data16 => {
                    let mut formatted_arg = String::from_str("0x");
                    push_hex4(&mut formatted_arg, mmu.read16_safe(instruction_addr + 1));
                    let name = replace_all_str(instruction.name, "d16", formatted_arg.as_str());
                    replace_all_str(name.as_str(), "a16", formatted_arg.as_str())
                },
            },
        }
    } else {
        String::from_str(instruction.name)
    }
}

} // verus!
