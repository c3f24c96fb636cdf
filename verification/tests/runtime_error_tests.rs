use cellscript::error::CompileError;
use cellscript::runtime_errors::{
    all_runtime_errors, reserved_runtime_error_codes, runtime_error_info, runtime_error_info_by_code, runtime_error_info_by_name,
    runtime_error_info_for_diagnostic, runtime_error_info_for_diagnostic_message, CellScriptRuntimeError,
};
use std::collections::BTreeSet;

#[test]
fn runtime_error_registry_roundtrips_and_has_unique_codes() {
    let mut codes = BTreeSet::new();
    let mut names = BTreeSet::new();
    for error in all_runtime_errors().iter() {
        let info = runtime_error_info(*error);
        assert_eq!(CellScriptRuntimeError::from_code(info.code), Some(*error));
        assert_eq!(runtime_error_info_by_code(info.code), Some(info));
        assert_eq!(runtime_error_info_by_name(info.name), Some(info));
        assert!(!info.name.is_empty());
        assert!(!info.description.is_empty());
        assert!(!info.hint.is_empty());
        assert!(codes.insert(info.code), "duplicate runtime error code {}", info.code);
        assert!(names.insert(info.name), "duplicate runtime error name {}", info.name);
    }
    for code in reserved_runtime_error_codes().iter() {
        assert!(!codes.contains(code), "reserved runtime error code {} is registered", code);
        assert_eq!(runtime_error_info_by_code(*code), None);
    }
}

#[test]
fn diagnostic_messages_map_to_runtime_error_codes_where_possible() {
    assert_eq!(
        runtime_error_info_for_diagnostic_message("fail-closed runtime features: ckb-sighash-all-deferred").map(|info| info.code),
        Some(66)
    );
    assert_eq!(
        runtime_error_info_for_diagnostic_message("fail-closed runtime features: collection-push").map(|info| info.code),
        Some(24)
    );
    assert_eq!(runtime_error_info_for_diagnostic_message("fixed-byte-comparison unresolved").map(|info| info.code), Some(18));
    assert_eq!(runtime_error_info_for_diagnostic_message("ordinary type mismatch").map(|info| info.code), None);
}

#[test]
fn typed_diagnostic_runtime_code_wins_over_message_heuristics() {
    let diagnostic = CompileError::without_span("entry witness text in an unrelated diagnostic").with_code("E0018");
    assert_eq!(runtime_error_info_for_diagnostic(&diagnostic).map(|info| info.code), Some(18));
}

#[test]
fn registry_is_sorted_by_code_and_skips_reserved_codes() {
    let all = all_runtime_errors();
    for pair in all.windows(2) {
        assert!(pair[0].code() < pair[1].code());
    }
    assert_eq!(reserved_runtime_error_codes(), vec![6, 19, 27, 28, 29, 30, 31]);
    assert_eq!(CellScriptRuntimeError::from_code(30), None);
    assert_eq!(CellScriptRuntimeError::from_code(6), None);
    assert_eq!(CellScriptRuntimeError::from_code(0), None);
}

#[test]
fn unknown_names_and_codes_have_no_registry_entry() {
    assert_eq!(runtime_error_info_by_name("no-such-runtime-error"), None);
    assert_eq!(runtime_error_info_by_code(u64::MAX), None);
}

#[test]
fn diagnostic_without_runtime_code_falls_back_to_the_message() {
    let coded_elsewhere = CompileError::without_span("fixed-byte-comparison unresolved").with_code("W0018");
    assert_eq!(runtime_error_info_for_diagnostic(&coded_elsewhere).map(|info| info.code), Some(18));
    let uncoded = CompileError::without_span("ordinary type mismatch");
    assert_eq!(runtime_error_info_for_diagnostic(&uncoded), None);
}
