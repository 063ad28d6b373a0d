use anc_isa::{
    DataSectionType, DependencyCondition, DependencyLocal, DependencyParameterValue,
    ExternalLibraryDependency, ExternalLibraryDependencyType, MemoryDataType, ModuleDependency,
    ModuleDependencyType, Operand, OperandDataType, IMAGE_FORMAT_MAJOR_VERSION,
    IMAGE_FORMAT_MINOR_VERSION, OPERAND_SIZE_IN_BYTES, RUNTIME_EDITION, SELF_REFERENCE_MODULE_NAME,
};
use std::collections::HashMap;

#[test]
fn operand_data_type_numbers_and_names() {
    let all = [
        (OperandDataType::I32, 0, "i32"),
        (OperandDataType::I64, 1, "i64"),
        (OperandDataType::F32, 2, "f32"),
        (OperandDataType::F64, 3, "f64"),
    ];
    for (data_type, number, name) in all {
        assert_eq!(data_type.to_u8(), number);
        assert_eq!(data_type as u8, number);
        assert_eq!(OperandDataType::from_u8(number), Some(data_type));
        assert_eq!(data_type.to_string(), name);
    }
    assert_eq!(OperandDataType::from_u8(4), None);
    assert_eq!(OperandDataType::from_u8(255), None);
}

#[test]
fn memory_data_type_numbers_and_names() {
    let all = [
        (MemoryDataType::I32, 0, "i32"),
        (MemoryDataType::I64, 1, "i64"),
        (MemoryDataType::F32, 2, "f32"),
        (MemoryDataType::F64, 3, "f64"),
        (MemoryDataType::Bytes, 4, "byte[]"),
    ];
    for (data_type, number, name) in all {
        assert_eq!(data_type.to_u8(), number);
        assert_eq!(data_type as u8, number);
        assert_eq!(MemoryDataType::from_u8(number), Some(data_type));
        assert_eq!(data_type.to_string(), name);
    }
    assert_eq!(MemoryDataType::from_u8(5), None);
}

#[test]
fn data_section_type_numbers_and_names() {
    let all = [
        (DataSectionType::ReadOnly, 0, "read_only"),
        (DataSectionType::ReadWrite, 1, "read_write"),
        (DataSectionType::Uninit, 2, "uninit"),
    ];
    for (section_type, number, name) in all {
        assert_eq!(section_type.to_u8(), number);
        assert_eq!(section_type as u8, number);
        assert_eq!(DataSectionType::from_u8(number), Some(section_type));
        assert_eq!(section_type.to_string(), name);
    }
    assert_eq!(DataSectionType::from_u8(3), None);
}

#[test]
fn dependency_type_numbers_and_names() {
    let modules = [
        (ModuleDependencyType::Local, 0),
        (ModuleDependencyType::Remote, 1),
        (ModuleDependencyType::Share, 2),
        (ModuleDependencyType::Runtime, 3),
        (ModuleDependencyType::Current, 4),
    ];
    for (dependency_type, number) in modules {
        assert_eq!(dependency_type.to_u8(), number);
        assert_eq!(dependency_type as u8, number);
        assert_eq!(ModuleDependencyType::from_u8(number), Some(dependency_type));
    }
    assert_eq!(ModuleDependencyType::from_u8(5), None);
    let libraries = [
        (ExternalLibraryDependencyType::Local, 0, "local"),
        (ExternalLibraryDependencyType::Remote, 1, "remote"),
        (ExternalLibraryDependencyType::Share, 2, "share"),
        (ExternalLibraryDependencyType::Runtime, 3, "runtime"),
    ];
    for (dependency_type, number, name) in libraries {
        assert_eq!(dependency_type.to_u8(), number);
        assert_eq!(dependency_type as u8, number);
        assert_eq!(ExternalLibraryDependencyType::from_u8(number), Some(dependency_type));
        assert_eq!(dependency_type.to_string(), name);
    }
    assert_eq!(ExternalLibraryDependencyType::from_u8(4), None);
}

#[test]
fn dependency_values() {
    assert_eq!(DependencyCondition::default(), DependencyCondition::True);
    let mut parameters = HashMap::new();
    parameters.insert("name".to_owned(), DependencyParameterValue::Bool(true));
    let local = DependencyLocal {
        path: "~/projects/helloworld".to_owned(),
        parameters,
        condition: DependencyCondition::default(),
    };
    let module = ModuleDependency::Local(Box::new(local.clone()));
    assert_eq!(module, ModuleDependency::Local(Box::new(local.clone())));
    assert_ne!(module, ModuleDependency::Current);
    let library = ExternalLibraryDependency::Local(Box::new(local));
    assert_ne!(library, ExternalLibraryDependency::Runtime);
    assert_eq!(SELF_REFERENCE_MODULE_NAME, "module");
}

#[test]
fn constants() {
    let operand: Operand = [0; OPERAND_SIZE_IN_BYTES];
    assert_eq!(operand.len(), 8);
    assert_eq!(RUNTIME_EDITION, b"2025\0\0\0\0");
    assert_eq!(IMAGE_FORMAT_MAJOR_VERSION, 1);
    assert_eq!(IMAGE_FORMAT_MINOR_VERSION, 0);
}
