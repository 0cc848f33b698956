use vstd::prelude::*;

verus! {

/// A decoded instruction: its mnemonic and the kind of data that follows its opcode.
pub struct Instruction {
    pub name: &'static str,
    pub arg: Option<InstructionArg>,
}

/// The data that follows an opcode: one byte or a 16-bit word.
#[derive(Clone, Copy, Debug, PartialEq, Eq, Structural)]
pub enum InstructionArg {
    Data8,
    Data16,
}

/// The length in bytes of an instruction: its opcode and the data after it.
pub open spec fn instruction_length(arg: Option<InstructionArg>) -> u8 {
    match arg {
        None => 1,
        Some(InstructionArg::Data8) => 2,
        Some(InstructionArg::Data16) => 3,
    }
}

impl Instruction {
    pub fn new(name: &'static str, arg: Option<InstructionArg>) -> (instruction: Instruction)
        ensures
            instruction.name@ == name@,
            instruction.arg == arg,
    {
        Instruction { name, arg }
    }

    /// The length in bytes of the instruction: its opcode and the data after it.
    pub fn get_length(&self) -> (length: u8)
        ensures
            length == instruction_length(self.arg),
    {
        match &self.arg {
            None => 1,
            Some(data) => match data {
                InstructionArg::Data8 => 2,
                InstructionArg::Data16 => 3,
            },
        }
    }

    /// The mnemonic of the instruction as text.
    pub fn to_string(&self) -> (s: String)
        ensures
            s@ == self.name@,
    {
        String::from_str(self.name)
    }
}

} // verus!
