//! Instruction set architecture of a stack-based virtual machine: the binary
//! encoding of instructions, the operand and stack-frame model, and the
//! structured control-flow protocol, together with the version and dependency
//! metadata that module images carry.

pub mod data;
pub mod dependency;
pub mod fault;
pub mod instruction;
pub mod layout;
pub mod machine;
pub mod memory;
pub mod opcode;
pub mod operand;
pub mod stream;
mod text;
pub mod types;
pub mod version;

pub use dependency::{
    DependencyCondition, DependencyConditionCheck, DependencyLocal, DependencyParameterValue,
    DependencyRemote, DependencyShare, ExternalLibraryDependency, ExternalLibraryDependencyType,
    ModuleDependency, ModuleDependencyType, PropertyValue, SELF_REFERENCE_MODULE_NAME,
};
pub use types::{DataSectionType, MemoryDataType, Operand, OperandDataType, OPERAND_SIZE_IN_BYTES};
pub use version::{EffectiveVersion, VersionCompatibility};

use vstd::prelude::*;

verus! {

/// The edition of the runtime, as the eight bytes that a module image carries:
/// the text of the edition, filled up with zero bytes.
///
/// Editions are generations of the runtime that do not run each other's
/// modules. They are not ordered: a module runs only on the runtime of its own
/// edition.
pub const RUNTIME_EDITION: &'static [u8; 8] = &[0x32, 0x30, 0x32, 0x35, 0, 0, 0, 0];

/// The edition of the runtime as text.
pub const RUNTIME_EDITION_STRING: &'static str = "2025";

/// The major version of the newest image format that this runtime reads.
pub const IMAGE_FORMAT_MAJOR_VERSION: u16 = 1;

/// The minor version of the newest image format that this runtime reads.
pub const IMAGE_FORMAT_MINOR_VERSION: u16 = 0;

/// The bytes of the edition are the characters of its text, then zeros.
pub proof fn lemma_runtime_edition_text()
    ensures
        RUNTIME_EDITION_STRING@.len() == 4,
        forall|i: int| 0 <= i < 4 ==> RUNTIME_EDITION[i] == RUNTIME_EDITION_STRING@[i] as u8,
        forall|i: int| 4 <= i < 8 ==> RUNTIME_EDITION[i] == 0,
{
    reveal_strlit("2025");
}

} // verus!
