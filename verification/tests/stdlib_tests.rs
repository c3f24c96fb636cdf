use cellscript::ckb_abi::TargetProfile;
use cellscript::stdlib::collections::Collections;
use cellscript::stdlib::{SchedulerAccess, SchedulerMetadata, StdLib};

#[test]
fn test_std_functions() {
    let funcs = StdLib::functions();
    assert!(!funcs.is_empty());
    assert!(StdLib::is_std_function("syscall_load_cell"));
    assert!(StdLib::is_std_function("syscall_load_script"));
    assert!(StdLib::is_std_function("syscall_load_cell_by_field"));
    assert!(StdLib::is_std_function("syscall_load_cell_data"));
    assert!(StdLib::is_std_function("math_isqrt"));
}

#[test]
fn test_get_function() {
    let func = StdLib::get_function("math_min");
    assert!(func.is_some());
    let func = func.unwrap();
    assert_eq!(func.params.len(), 2);
}

#[test]
fn mod_test_generate_assembly() {
    let assembly = StdLib::generate_assembly();
    assert!(assembly.contains("__syscall_load_cell"));
    assert!(assembly.contains("__syscall_load_script:\n"));
    assert!(assembly.contains("__syscall_load_cell_by_field:\n"));
    assert!(assembly.contains("__syscall_load_cell_data:\n"));
    assert!(assembly.contains("li a7, 2052"));
    assert!(assembly.contains("li a7, 2081"));
    assert!(assembly.contains("li a7, 2092"));
    assert!(!assembly.contains("__hash"));
    assert!(!assembly.contains("3001"));
    assert!(!assembly.contains("li a7, 2100"));
    assert!(assembly.contains("__math_isqrt"));
}

#[test]
fn test_generate_ckb_assembly_uses_ckb_load_script_syscall() {
    let assembly = StdLib::generate_assembly_for_target_profile(TargetProfile::Ckb);
    assert!(assembly.contains("# Syscall: load_script (2052)"));
    assert!(assembly.contains("li a7, 2052"));
    assert!(!assembly.contains("li a7, 2075"));
    assert!(assembly.contains("current_timepoint"));
    assert!(assembly.contains("__ckb_input_since"));
    assert!(assembly.contains("li a7, 2083  # LOAD_INPUT_BY_FIELD"));
    assert!(assembly.contains("Source::GroupInput"));
}

#[test]
fn test_scheduler_metadata_generate_molecule_uses_table_layout() {
    let bytes = SchedulerMetadata::generate(
        "Creating",
        false,
        vec![[0x42; 32]],
        64,
        vec![SchedulerAccess {
            operation: "create".to_string(),
            source: "Output".to_string(),
            index: 0,
            binding: "create:Output#0".to_string(),
        }],
    );

    assert!(!bytes.starts_with(&[0x11, 0xCE, 1]));
    assert_eq!(u32::from_le_bytes([bytes[0], bytes[1], bytes[2], bytes[3]]) as usize, bytes.len());
    assert_eq!(u32::from_le_bytes([bytes[4], bytes[5], bytes[6], bytes[7]]), 40);
    assert_eq!(&bytes[40..42], &[0x11, 0xCE]);
}

#[test]
fn scheduler_record_without_shared_cells_or_accesses() {
    let bytes = SchedulerMetadata::generate_molecule("ReadOnly", true, Vec::new(), 0, Vec::new());
    assert_eq!(u32::from_le_bytes([bytes[0], bytes[1], bytes[2], bytes[3]]) as usize, bytes.len());
    assert_eq!(&bytes[40..42], &[0x11, 0xCE]);
    assert_eq!(bytes, SchedulerMetadata::generate("ReadOnly", true, Vec::new(), 0, Vec::new()));
}

#[test]
fn scheduler_access_records_hash_their_binding() {
    let access = |binding: &str| SchedulerAccess {
        operation: "consume".to_string(),
        source: "Input".to_string(),
        index: 1,
        binding: binding.to_string(),
    };
    let first = SchedulerMetadata::generate("Mutating", false, Vec::new(), 10, vec![access("consume:Input#1")]);
    let second = SchedulerMetadata::generate("Mutating", false, Vec::new(), 10, vec![access("consume:Input#2")]);
    assert_eq!(first.len(), second.len());
    assert_ne!(first, second);
    let digest_start = first.len() - 32;
    assert_ne!(&first[digest_start..], &[0u8; 32][..]);
    assert_ne!(&first[digest_start..], "consume:Input#1".as_bytes().iter().chain([0u8; 17].iter()).copied().collect::<Vec<_>>().as_slice());
}

#[test]
fn unknown_std_function_is_absent() {
    assert!(!StdLib::is_std_function("no_such_helper"));
    assert!(StdLib::get_function("no_such_helper").is_none());
}

#[test]
fn test_collection_functions() {
    let funcs = Collections::functions();

    assert!(funcs.iter().any(|f| f.name == "vec_new"));
    assert!(funcs.iter().any(|f| f.name == "vec_push"));
    assert!(funcs.iter().any(|f| f.name == "vec_pop"));

    assert!(funcs.iter().any(|f| f.name == "hashmap_new"));
    assert!(funcs.iter().any(|f| f.name == "hashmap_insert"));
    assert!(funcs.iter().any(|f| f.name == "hashmap_get"));

    assert!(funcs.iter().any(|f| f.name == "hashset_new"));
    assert!(funcs.iter().any(|f| f.name == "hashset_insert"));
    assert!(funcs.iter().any(|f| f.name == "hashset_contains"));
}

#[test]
fn collections_test_generate_assembly() {
    let assembly = Collections::generate_assembly();
    assert!(assembly.contains("__vec_new"));
    assert!(assembly.contains("__hashmap_new"));
    assert!(assembly.contains("__hashset_new"));
}
