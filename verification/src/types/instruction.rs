//! Decoded instructions and their operands.
use vstd::prelude::*;

verus! {

/// The kind of an operand.
#[derive(Debug, Clone, Copy, PartialEq, Eq, Structural)]
pub enum OperandType {
    Reg,
    Mem,
    Phrase,
    Displ,
    Imm,
    Far,
    Near,
    IdpSpec0,
    IdpSpec1,
    IdpSpec2,
    IdpSpec3,
    IdpSpec4,
    IdpSpec5,
}

/// The data type of an operand.
#[derive(Debug, Clone, Copy, PartialEq, Eq, Structural)]
pub enum OperandDataType {
    Byte,
    Word,
    DWord,
    Float,
    Double,
    TByte,
    PackReal,
    QWord,
    Byte16,
    Code,
    Void,
    FWord,
    Bitfield,
    String,
    Unicode,
    LongDouble,
    Byte32,
    Byte64,
    Half,
}

/// An operand of a decoded instruction, as the library reports it.
#[derive(Debug, Clone, Copy, PartialEq, Eq, Structural)]
pub struct Operand {
    pub op_type: OperandType,
    pub data_type: OperandDataType,
    pub value: Option<u64>,
    pub address: Option<u64>,
    pub register: Option<u16>,
    pub phrase: Option<u16>,
}

impl Operand {
    pub fn operand_type(&self) -> (r: OperandType)
        ensures
            r == self.op_type,
    {
        self.op_type
    }

    pub fn data_type(&self) -> (r: OperandDataType)
        ensures
            r == self.data_type,
    {
        self.data_type
    }

    /// The immediate value, for operands that have one.
    pub fn value(&self) -> (r: Option<u64>)
        ensures
            r == self.value,
    {
        self.value
    }

    /// The target address, for operands that have one.
    pub fn address(&self) -> (r: Option<u64>)
        ensures
            r == self.address,
    {
        self.address
    }

    /// The register number, for register operands.
    pub fn register(&self) -> (r: Option<u32>)
        ensures
            r == match self.register {
                Some(x) => Some(x as u32),
                None => None::<u32>,
            },
    {
        match self.register {
            Some(x) => Some(x as u32),
            None => None,
        }
    }

    /// The phrase number, for memory operands built from registers.
    pub fn phrase(&self) -> (r: Option<u32>)
        ensures
            r == match self.phrase {
                Some(x) => Some(x as u32),
                None => None::<u32>,
            },
    {
        match self.phrase {
            Some(x) => Some(x as u32),
            None => None,
        }
    }
}

/// A decoded instruction, as the library reports it. `operands[n]` is the operand in slot
/// `n`, absent for an empty slot; `block_end_if_calls_stop` and
/// `block_end_if_calls_continue` are the library's answers to whether the instruction ends
/// a basic block when calls do, or do not, end one.
#[derive(Debug)]
pub struct Instruction {
    pub address: u64,
    pub itype: u16,
    pub len: usize,
    pub operand_count: usize,
    pub is_empty: bool,
    pub is_call: bool,
    pub is_return: bool,
    pub is_indirect_jump: bool,
    pub block_end_if_calls_stop: bool,
    pub block_end_if_calls_continue: bool,
    pub operands: Vec<Option<Operand>>,
}

impl Instruction {
    pub fn address(&self) -> (r: u64)
        ensures
            r == self.address,
    {
        self.address
    }

    pub fn itype(&self) -> (r: u32)
        ensures
            r == self.itype as u32,
    {
        self.itype as u32
    }

    pub fn len(&self) -> (r: u32)
        ensures
            r == self.len as u32,
    {
        self.len as u32
    }

    pub fn operand_count(&self) -> (r: u32)
        ensures
            r == self.operand_count as u32,
    {
        self.operand_count as u32
    }

    pub fn is_empty(&self) -> (r: bool)
        ensures
            r == self.is_empty,
    {
        self.is_empty
    }

    pub fn is_call(&self) -> (r: bool)
        ensures
            r == self.is_call,
    {
        self.is_call
    }

    pub fn is_return(&self) -> (r: bool)
        ensures
            r == self.is_return,
    {
        self.is_return
    }

    pub fn is_indirect_jump(&self) -> (r: bool)
        ensures
            r == self.is_indirect_jump,
    {
        self.is_indirect_jump
    }

    /// Whether the instruction ends a basic block; calls end one unless the caller says
    /// otherwise.
    pub fn is_basic_block_end(&self, include_unknown: Option<bool>) -> (r: bool)
        ensures
            r == if include_unknown == Some(false) {
                self.block_end_if_calls_continue
            } else {
                self.block_end_if_calls_stop
            },
    {
        match include_unknown {
            Some(false) => self.block_end_if_calls_continue,
            _ => self.block_end_if_calls_stop,
        }
    }

    /// The operand in slot `n`, if that slot is in use.
    pub fn operand(&self, n: u32) -> (r: Option<Operand>)
        ensures
            r == if (n as int) < self.operands@.len() {
                self.operands@[n as int]
            } else {
                None::<Operand>
            },
    {
        let i = n as usize;
        if i < self.operands.len() {
            self.operands[i]
        } else {
            None
        }
    }
}

} // verus!
