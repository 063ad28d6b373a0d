use anc_isa::data::{DataLocation, DataSectionCounts};
use anc_isa::DataSectionType;

fn counts() -> DataSectionCounts {
    DataSectionCounts {
        imported_read_only: 2,
        imported_read_write: 0,
        imported_uninit: 3,
        internal_read_only: 1,
        internal_read_write: 4,
        internal_uninit: 2,
    }
}

fn sections() -> [(bool, DataSectionType); 6] {
    [
        (true, DataSectionType::ReadOnly),
        (true, DataSectionType::ReadWrite),
        (true, DataSectionType::Uninit),
        (false, DataSectionType::ReadOnly),
        (false, DataSectionType::ReadWrite),
        (false, DataSectionType::Uninit),
    ]
}

#[test]
fn sections_are_numbered_in_order() {
    let counts = counts();
    let firsts = [0u64, 2, 2, 5, 6, 10];
    let sizes = [2u32, 0, 3, 1, 4, 2];
    for (position, (imported, section)) in sections().into_iter().enumerate() {
        assert_eq!(counts.first(imported, section), firsts[position]);
        assert_eq!(counts.count(imported, section), sizes[position]);
    }
    assert_eq!(counts.public_index(true, DataSectionType::ReadOnly, 0), Some(0));
    assert_eq!(counts.public_index(true, DataSectionType::ReadOnly, 1), Some(1));
    assert_eq!(counts.public_index(true, DataSectionType::ReadOnly, 2), None);
    assert_eq!(counts.public_index(true, DataSectionType::ReadWrite, 0), None);
    assert_eq!(counts.public_index(true, DataSectionType::Uninit, 0), Some(2));
    assert_eq!(counts.public_index(true, DataSectionType::Uninit, 2), Some(4));
    assert_eq!(counts.public_index(false, DataSectionType::ReadOnly, 0), Some(5));
    assert_eq!(counts.public_index(false, DataSectionType::ReadWrite, 3), Some(9));
    assert_eq!(counts.public_index(false, DataSectionType::Uninit, 1), Some(11));
    assert_eq!(counts.public_index(false, DataSectionType::Uninit, 2), None);
}

#[test]
fn public_index_is_located() {
    let counts = counts();
    assert_eq!(
        counts.locate(0),
        DataLocation::Section { imported: true, section: DataSectionType::ReadOnly, index: 0 }
    );
    assert_eq!(
        counts.locate(2),
        DataLocation::Section { imported: true, section: DataSectionType::Uninit, index: 0 }
    );
    assert_eq!(
        counts.locate(5),
        DataLocation::Section { imported: false, section: DataSectionType::ReadOnly, index: 0 }
    );
    assert_eq!(
        counts.locate(9),
        DataLocation::Section { imported: false, section: DataSectionType::ReadWrite, index: 3 }
    );
    assert_eq!(
        counts.locate(11),
        DataLocation::Section { imported: false, section: DataSectionType::Uninit, index: 1 }
    );
    assert_eq!(counts.locate(12), DataLocation::Dynamic);
    assert_eq!(counts.locate(1000), DataLocation::Dynamic);
    assert_eq!(counts.locate(u32::MAX), DataLocation::Dynamic);
    // every item is found again, and the indices have no gaps
    let mut expected = 0;
    for (imported, section) in sections() {
        for index in 0..counts.count(imported, section) {
            assert_eq!(counts.public_index(imported, section, index), Some(expected));
            assert_eq!(counts.locate(expected), DataLocation::Section { imported, section, index });
            expected += 1;
        }
    }
    assert_eq!(expected, 12);
}

#[test]
fn public_index_has_32_bits() {
    let counts = DataSectionCounts {
        imported_read_only: u32::MAX,
        imported_read_write: u32::MAX,
        imported_uninit: 0,
        internal_read_only: 0,
        internal_read_write: 0,
        internal_uninit: 7,
    };
    assert_eq!(counts.first(false, DataSectionType::Uninit), 2 * u32::MAX as u64);
    assert_eq!(
        counts.public_index(true, DataSectionType::ReadOnly, u32::MAX - 1),
        Some(u32::MAX - 1)
    );
    assert_eq!(counts.public_index(true, DataSectionType::ReadWrite, 0), Some(u32::MAX));
    assert_eq!(counts.public_index(true, DataSectionType::ReadWrite, 1), None);
    assert_eq!(counts.public_index(false, DataSectionType::Uninit, 0), None);
    assert_eq!(
        counts.locate(u32::MAX),
        DataLocation::Section { imported: true, section: DataSectionType::ReadWrite, index: 0 }
    );
    let empty = DataSectionCounts {
        imported_read_only: 0,
        imported_read_write: 0,
        imported_uninit: 0,
        internal_read_only: 0,
        internal_read_write: 0,
        internal_uninit: 0,
    };
    assert_eq!(empty.locate(0), DataLocation::Dynamic);
    assert_eq!(empty.public_index(true, DataSectionType::ReadOnly, 0), None);
}
