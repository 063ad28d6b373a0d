//! The data public index: one numbering for all the data that a module can
//! address.
//!
//! The items of the six data sections are numbered in one run, section after
//! section: the imported read-only items first, then the imported read-write
//! and the imported uninitialized items, then the internal items in the same
//! order of sections. What lies beyond them names dynamically allocated
//! memory, by identifiers that the machine hands out and takes back and that
//! stand in no order.

use crate::types::DataSectionType;
use vstd::prelude::*;

verus! {

/// The number of items in each data section of a module.
#[derive(Debug, PartialEq, Eq, Structural, Clone, Copy)]
pub struct DataSectionCounts {
    pub imported_read_only: u32,
    pub imported_read_write: u32,
    pub imported_uninit: u32,
    pub internal_read_only: u32,
    pub internal_read_write: u32,
    pub internal_uninit: u32,
}

/// What a data public index names.
#[derive(Debug, PartialEq, Eq, Structural, Clone, Copy)]
pub enum DataLocation {
    /// Item `index` of a data section.
    Section { imported: bool, section: DataSectionType, index: u32 },
    /// Dynamically allocated memory, by the identifier that the index is.
    Dynamic,
}

impl DataSectionCounts {
    /// The number of items in the given section.
    pub open spec fn spec_count(self, imported: bool, section: DataSectionType) -> u32 {
        match (imported, section) {
            (true, DataSectionType::ReadOnly) => self.imported_read_only,
            (true, DataSectionType::ReadWrite) => self.imported_read_write,
            (true, DataSectionType::Uninit) => self.imported_uninit,
            (false, DataSectionType::ReadOnly) => self.internal_read_only,
            (false, DataSectionType::ReadWrite) => self.internal_read_write,
            (false, DataSectionType::Uninit) => self.internal_uninit,
        }
    }

    /// The number of items in the sections before the given one.
    pub open spec fn spec_first(self, imported: bool, section: DataSectionType) -> nat {
        match (imported, section) {
            (true, DataSectionType::ReadOnly) => 0,
            (true, DataSectionType::ReadWrite) => self.imported_read_only as nat,
            (true, DataSectionType::Uninit) => (self.imported_read_only
                + self.imported_read_write) as nat,
            (false, DataSectionType::ReadOnly) => (self.imported_read_only
                + self.imported_read_write + self.imported_uninit) as nat,
            (false, DataSectionType::ReadWrite) => (self.imported_read_only
                + self.imported_read_write + self.imported_uninit
                + self.internal_read_only) as nat,
            (false, DataSectionType::Uninit) => (self.imported_read_only
                + self.imported_read_write + self.imported_uninit + self.internal_read_only
                + self.internal_read_write) as nat,
        }
    }

    /// The number of items in all sections.
    pub open spec fn total(self) -> nat {
        (self.imported_read_only + self.imported_read_write + self.imported_uninit
            + self.internal_read_only + self.internal_read_write + self.internal_uninit) as nat
    }

    /// The data public index of item `index` of the given section, if the
    /// section has such an item and the index fits in 32 bits.
    pub open spec fn spec_public_index(
        self,
        imported: bool,
        section: DataSectionType,
        index: u32,
    ) -> Option<u32> {
        if index < self.spec_count(imported, section) && self.spec_first(imported, section) + index
            <= u32::MAX {
            Some((self.spec_first(imported, section) + index) as u32)
        } else {
            None
        }
    }

    /// What the data public index names.
    pub open spec fn spec_locate(self, public_index: u32) -> DataLocation {
        if public_index >= self.total() {
            DataLocation::Dynamic
        } else if public_index >= self.spec_first(false, DataSectionType::Uninit) {
            DataLocation::Section {
                imported: false,
                section: DataSectionType::Uninit,
                index: (public_index - self.spec_first(false, DataSectionType::Uninit)) as u32,
            }
        } else if public_index >= self.spec_first(false, DataSectionType::ReadWrite) {
            DataLocation::Section {
                imported: false,
                section: DataSectionType::ReadWrite,
                index: (public_index - self.spec_first(false, DataSectionType::ReadWrite)) as u32,
            }
        } else if public_index >= self.spec_first(false, DataSectionType::ReadOnly) {
            DataLocation::Section {
                imported: false,
                section: DataSectionType::ReadOnly,
                index: (public_index - self.spec_first(false, DataSectionType::ReadOnly)) as u32,
            }
        } else if public_index >= self.spec_first(true, DataSectionType::Uninit) {
            DataLocation::Section {
                imported: true,
                section: DataSectionType::Uninit,
                index: (public_index - self.spec_first(true, DataSectionType::Uninit)) as u32,
            }
        } else if public_index >= self.spec_first(true, DataSectionType::ReadWrite) {
            DataLocation::Section {
                imported: true,
                section: DataSectionType::ReadWrite,
                index: (public_index - self.spec_first(true, DataSectionType::ReadWrite)) as u32,
            }
        } else {
            DataLocation::Section {
                imported: true,
                section: DataSectionType::ReadOnly,
                index: public_index,
            }
        }
    }

    /// The number of items in the given section.
    pub fn count(&self, imported: bool, section: DataSectionType) -> (count: u32)
        ensures
            count == self.spec_count(imported, section),
    {
        match (imported, section) {
            (true, DataSectionType::ReadOnly) => self.imported_read_only,
            (true, DataSectionType::ReadWrite) => self.imported_read_write,
            (true, DataSectionType::Uninit) => self.imported_uninit,
            (false, DataSectionType::ReadOnly) => self.internal_read_only,
            (false, DataSectionType::ReadWrite) => self.internal_read_write,
            (false, DataSectionType::Uninit) => self.internal_uninit,
        }
    }

    /// The number of items in the sections before the given one.
    pub fn first(&self, imported: bool, section: DataSectionType) -> (first: u64)
        ensures
            first == self.spec_first(imported, section),
    {
        let a = self.imported_read_only as u64;
        let b = a + self.imported_read_write as u64;
        let c = b + self.imported_uninit as u64;
        let d = c + self.internal_read_only as u64;
        let e = d + self.internal_read_write as u64;
        match (imported, section) {
            (true, DataSectionType::ReadOnly) => 0,
            (true, DataSectionType::ReadWrite) => a,
            (true, DataSectionType::Uninit) => b,
            (false, DataSectionType::ReadOnly) => c,
            (false, DataSectionType::ReadWrite) => d,
            (false, DataSectionType::Uninit) => e,
        }
    }

    /// The data public index of item `index` of the given section, if the
    /// section has such an item and the index fits in 32 bits.
    pub fn public_index(&self, imported: bool, section: DataSectionType, index: u32) -> (found:
        Option<u32>)
        ensures
            found == self.spec_public_index(imported, section, index),
    {
        if index >= self.count(imported, section) {
            return None;
        }
        let public_index = self.first(imported, section) + index as u64;
        if public_index > 0xffff_ffff {
            None
        } else {
            Some(public_index as u32)
        }
    }

    /// What the data public index names.
    pub fn locate(&self, public_index: u32) -> (location: DataLocation)
        ensures
            location == self.spec_locate(public_index),
    {
        let index = public_index as u64;
        let total = self.first(false, DataSectionType::Uninit) + self.internal_uninit as u64;
        if index >= total {
            return DataLocation::Dynamic;
        }
        let first = self.first(false, DataSectionType::Uninit);
        if index >= first {
            return DataLocation::Section {
                imported: false,
                section: DataSectionType::Uninit,
                index: (index - first) as u32,
            };
        }
        let first = self.first(false, DataSectionType::ReadWrite);
        if index >= first {
            return DataLocation::Section {
                imported: false,
                section: DataSectionType::ReadWrite,
                index: (index - first) as u32,
            };
        }
        let first = self.first(false, DataSectionType::ReadOnly);
        if index >= first {
            return DataLocation::Section {
                imported: false,
                section: DataSectionType::ReadOnly,
                index: (index - first) as u32,
            };
        }
        let first = self.first(true, DataSectionType::Uninit);
        if index >= first {
            return DataLocation::Section {
                imported: true,
                section: DataSectionType::Uninit,
                index: (index - first) as u32,
            };
        }
        let first = self.first(true, DataSectionType::ReadWrite);
        if index >= first {
            return DataLocation::Section {
                imported: true,
                section: DataSectionType::ReadWrite,
                index: (index - first) as u32,
            };
        }
        DataLocation::Section { imported: true, section: DataSectionType::ReadOnly, index: public_index }
    }
}

/// A data public index names the item of a section that has that index, and
/// dynamically allocated memory where no item has it.
pub proof fn lemma_locate(counts: DataSectionCounts, public_index: u32)
    ensures
        match counts.spec_locate(public_index) {
            DataLocation::Section { imported, section, index } => counts.spec_public_index(
                imported,
                section,
                index,
            ) == Some(public_index),
            DataLocation::Dynamic => forall|imported: bool, section: DataSectionType, index: u32|
                #[trigger] counts.spec_public_index(imported, section, index) != Some(
                    public_index,
                ),
        },
{
}

/// The item of a section is found again by its data public index.
pub proof fn lemma_public_index(
    counts: DataSectionCounts,
    imported: bool,
    section: DataSectionType,
    index: u32,
)
    ensures
        counts.spec_public_index(imported, section, index) matches Some(public_index)
            ==> counts.spec_locate(public_index) == (DataLocation::Section {
            imported,
            section,
            index,
        }),
{
}

/// The items are numbered without gaps: those of one section follow each
/// other, and each section starts where the section before it ends.
pub proof fn lemma_sections_in_order(counts: DataSectionCounts)
    ensures
        counts.spec_first(true, DataSectionType::ReadOnly) == 0,
        counts.spec_first(true, DataSectionType::ReadWrite) == counts.spec_first(
            true,
            DataSectionType::ReadOnly,
        ) + counts.imported_read_only,
        counts.spec_first(true, DataSectionType::Uninit) == counts.spec_first(
            true,
            DataSectionType::ReadWrite,
        ) + counts.imported_read_write,
        counts.spec_first(false, DataSectionType::ReadOnly) == counts.spec_first(
            true,
            DataSectionType::Uninit,
        ) + counts.imported_uninit,
        counts.spec_first(false, DataSectionType::ReadWrite) == counts.spec_first(
            false,
            DataSectionType::ReadOnly,
        ) + counts.internal_read_only,
        counts.spec_first(false, DataSectionType::Uninit) == counts.spec_first(
            false,
            DataSectionType::ReadWrite,
        ) + counts.internal_read_write,
        counts.total() == counts.spec_first(false, DataSectionType::Uninit)
            + counts.internal_uninit,
{
}

} // verus!
