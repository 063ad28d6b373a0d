//! The kinds of values that operands, memory and data sections hold.

use vstd::prelude::*;

verus! {

/// The raw content of one operand: a cell of eight bytes.
pub type Operand = [u8; 8];

/// The size of an operand in bytes.
pub const OPERAND_SIZE_IN_BYTES: usize = 8;

/// The type of a function parameter or result, of a local variable, and of
/// an operand on the stack.
///
/// `I32` and `I64` say how wide an integer is, not whether it is signed: each
/// instruction decides how it reads the bits.
#[derive(Debug, PartialEq, Eq, Structural, Clone, Copy)]
pub enum OperandDataType {
    I32,
    I64,
    F32,
    F64,
}

/// The type of an item of a data section, and of dynamically allocated
/// memory.
#[derive(Debug, PartialEq, Eq, Structural, Clone, Copy)]
pub enum MemoryDataType {
    I32,
    I64,
    F32,
    F64,
    Bytes,
}

/// The three kinds of data section.
#[derive(Debug, PartialEq, Eq, Structural, Clone, Copy)]
pub enum DataSectionType {
    /// Data that is set when the module is built and never written.
    ReadOnly,
    /// Data that is set when the module is built and may be written.
    ReadWrite,
    /// Data that has no initial value.
    Uninit,
}

impl OperandDataType {
    /// The number that stands for the type in a module image.
    pub open spec fn spec_to_u8(self) -> u8 {
        match self {
            OperandDataType::I32 => 0,
            OperandDataType::I64 => 1,
            OperandDataType::F32 => 2,
            OperandDataType::F64 => 3,
        }
    }

    /// The name of the type in assembly text.
    pub open spec fn name(self) -> Seq<char> {
        match self {
            OperandDataType::I32 => "i32"@,
            OperandDataType::I64 => "i64"@,
            OperandDataType::F32 => "f32"@,
            OperandDataType::F64 => "f64"@,
        }
    }

    pub fn to_u8(self) -> (number: u8)
        ensures
            number == self.spec_to_u8(),
    {
        match self {
            OperandDataType::I32 => 0,
            OperandDataType::I64 => 1,
            OperandDataType::F32 => 2,
            OperandDataType::F64 => 3,
        }
    }

    /// The type that `number` stands for, if it stands for one.
    pub fn from_u8(number: u8) -> (found: Option<Self>)
        ensures
            found is Some <==> number < 4,
            found matches Some(data_type) ==> data_type.spec_to_u8() == number,
    {
        match number {
            0 => Some(OperandDataType::I32),
            1 => Some(OperandDataType::I64),
            2 => Some(OperandDataType::F32),
            3 => Some(OperandDataType::F64),
            _ => None,
        }
    }

    pub fn to_string(&self) -> (text: String)
        ensures
            text@ == self.name(),
    {
        match self {
            OperandDataType::I64 => "i64".to_owned(),
            OperandDataType::I32 => "i32".to_owned(),
            OperandDataType::F64 => "f64".to_owned(),
            OperandDataType::F32 => "f32".to_owned(),
        }
    }
}

impl MemoryDataType {
    /// The number that stands for the type in a module image.
    pub open spec fn spec_to_u8(self) -> u8 {
        match self {
            MemoryDataType::I32 => 0,
            MemoryDataType::I64 => 1,
            MemoryDataType::F32 => 2,
            MemoryDataType::F64 => 3,
            MemoryDataType::Bytes => 4,
        }
    }

    /// The name of the type in assembly text.
    pub open spec fn name(self) -> Seq<char> {
        match self {
            MemoryDataType::I32 => "i32"@,
            MemoryDataType::I64 => "i64"@,
            MemoryDataType::F32 => "f32"@,
            MemoryDataType::F64 => "f64"@,
            MemoryDataType::Bytes => "byte[]"@,
        }
    }

    pub fn to_u8(self) -> (number: u8)
        ensures
            number == self.spec_to_u8(),
    {
        match self {
            MemoryDataType::I32 => 0,
            MemoryDataType::I64 => 1,
            MemoryDataType::F32 => 2,
            MemoryDataType::F64 => 3,
            MemoryDataType::Bytes => 4,
        }
    }

    /// The type that `number` stands for, if it stands for one.
    pub fn from_u8(number: u8) -> (found: Option<Self>)
        ensures
            found is Some <==> number < 5,
            found matches Some(data_type) ==> data_type.spec_to_u8() == number,
    {
        match number {
            0 => Some(MemoryDataType::I32),
            1 => Some(MemoryDataType::I64),
            2 => Some(MemoryDataType::F32),
            3 => Some(MemoryDataType::F64),
            4 => Some(MemoryDataType::Bytes),
            _ => None,
        }
    }

    pub fn to_string(&self) -> (text: String)
        ensures
            text@ == self.name(),
    {
        match self {
            MemoryDataType::I64 => "i64".to_owned(),
            MemoryDataType::I32 => "i32".to_owned(),
            MemoryDataType::F64 => "f64".to_owned(),
            MemoryDataType::F32 => "f32".to_owned(),
            MemoryDataType::Bytes => "byte[]".to_owned(),
        }
    }
}

impl DataSectionType {
    /// The number that stands for the kind of section in a module image.
    pub open spec fn spec_to_u8(self) -> u8 {
        match self {
            DataSectionType::ReadOnly => 0,
            DataSectionType::ReadWrite => 1,
            DataSectionType::Uninit => 2,
        }
    }

    /// The name of the kind of section in assembly text.
    pub open spec fn name(self) -> Seq<char> {
        match self {
            DataSectionType::ReadOnly => "read_only"@,
            DataSectionType::ReadWrite => "read_write"@,
            DataSectionType::Uninit => "uninit"@,
        }
    }

    pub fn to_u8(self) -> (number: u8)
        ensures
            number == self.spec_to_u8(),
    {
        match self {
            DataSectionType::ReadOnly => 0,
            DataSectionType::ReadWrite => 1,
            DataSectionType::Uninit => 2,
        }
    }

    /// The kind of section that `number` stands for, if it stands for one.
    pub fn from_u8(number: u8) -> (found: Option<Self>)
        ensures
            found is Some <==> number < 3,
            found matches Some(section_type) ==> section_type.spec_to_u8() == number,
    {
        match number {
            0 => Some(DataSectionType::ReadOnly),
            1 => Some(DataSectionType::ReadWrite),
            2 => Some(DataSectionType::Uninit),
            _ => None,
        }
    }

    pub fn to_string(&self) -> (text: String)
        ensures
            text@ == self.name(),
    {
        let name = match self {
            DataSectionType::ReadOnly => "read_only",
            DataSectionType::ReadWrite => "read_write",
            DataSectionType::Uninit => "uninit",
        };
        name.to_owned()
    }
}

} // verus!
