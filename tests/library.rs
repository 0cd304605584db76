use macaroni::template::{DERIVE_LIB, DERIVE_TEST, FUNCTION_LIB, FUNCTION_TEST, LIB_FILE, MANIFEST_FILE, TEST_FILE};
use macaroni::{classify, project_for, remove_extra_newline, Error, Expansion, MacroType, Session, Stash};

fn fresh_session() -> Session {
    Session::new(Stash::fresh())
}

#[test]
fn strips_carriage_returns() {
    assert_eq!(remove_extra_newline(b"fn main() {\r\n}\r\n"), b"fn main() {\n}\n".to_vec());
}

#[test]
fn keeps_text_without_carriage_returns() {
    assert_eq!(remove_extra_newline(b"a\nb"), b"a\nb".to_vec());
}

#[test]
fn strips_everything_from_only_carriage_returns() {
    assert_eq!(remove_extra_newline(b"\r\r\r"), Vec::<u8>::new());
    assert_eq!(remove_extra_newline(b""), Vec::<u8>::new());
}

#[test]
fn project_files_are_the_template() {
    let files = project_for(MacroType::Derive).write();
    assert_eq!(files.lib_rs, DERIVE_LIB.as_bytes().to_vec());
    assert_eq!(files.test_rs, DERIVE_TEST.as_bytes().to_vec());
    assert!(files.toml.starts_with(b"[package]"));
    assert!(!files.toml.contains(&b'\r'));
}

#[test]
fn project_layout() {
    assert_eq!(MANIFEST_FILE, "Cargo.toml");
    assert_eq!(LIB_FILE, "src/lib.rs");
    assert_eq!(TEST_FILE, "tests/test.rs");
}

#[test]
fn every_kind_has_its_own_template() {
    let kinds = [MacroType::Attribute, MacroType::Declarative, MacroType::Derive, MacroType::Function];
    for (i, a) in kinds.iter().enumerate() {
        for b in kinds.iter().skip(i + 1) {
            assert_ne!(project_for(*a).make_new(), project_for(*b).make_new());
        }
    }
}

#[test]
fn classify_output_is_success() {
    match classify(b"fn test() {}".to_vec(), b"warning: unused".to_vec()) {
        Ok(e) => {
            assert_eq!(e.expanded, b"fn test() {}".to_vec());
            assert_eq!(e.diagnostics, b"warning: unused".to_vec());
        }
        Err(_) => panic!("expected an expansion"),
    }
}

#[test]
fn classify_no_output_is_failure() {
    match classify(Vec::new(), b"error[E0425]".to_vec()) {
        Err(Error::CargoFailed(d)) => assert_eq!(d, b"error[E0425]".to_vec()),
        _ => panic!("expected a toolchain failure"),
    }
}

#[test]
fn new_session_is_on_landing_page() {
    let s = fresh_session();
    assert_eq!(s.selected(), None);
    assert!(!s.is_pending());
    assert!(s.expansion().is_empty());
}

#[test]
fn select_loads_template() {
    let mut s = fresh_session();
    s.select(Some(MacroType::Function));
    assert_eq!(s.src_code(), FUNCTION_LIB.as_bytes());
    assert_eq!(s.test_code(), FUNCTION_TEST.as_bytes());
}

#[test]
fn request_new_after_edits_restores_template() {
    let mut s = fresh_session();
    s.select(Some(MacroType::Derive));
    s.edit_library(b"broken".to_vec());
    s.edit_test(b"also broken".to_vec());
    let req = s.begin_expand().unwrap();
    s.complete_expand(req.kind, classify(b"expanded".to_vec(), b"warn".to_vec()));
    assert_eq!(s.expansion(), b"expanded");
    s.request_new();
    assert_eq!(s.src_code(), DERIVE_LIB.as_bytes());
    assert_eq!(s.test_code(), DERIVE_TEST.as_bytes());
    assert!(s.expansion().is_empty());
    assert!(s.errors().is_empty());
}

#[test]
fn request_new_without_kind_does_nothing() {
    let mut s = fresh_session();
    s.request_new();
    assert_eq!(s.selected(), None);
    assert!(s.src_code().is_empty());
}

#[test]
fn select_same_kind_twice_keeps_buffers() {
    let mut s = fresh_session();
    s.select(Some(MacroType::Attribute));
    s.edit_library(b"edited".to_vec());
    let req = s.begin_expand().unwrap();
    s.complete_expand(req.kind, classify(b"out".to_vec(), b"err".to_vec()));
    s.select(Some(MacroType::Attribute));
    assert_eq!(s.src_code(), b"edited");
    assert_eq!(s.expansion(), b"out");
    assert_eq!(s.errors(), b"err");
}

#[test]
fn round_trip_keeps_edits() {
    let mut s = fresh_session();
    s.select(Some(MacroType::Attribute));
    s.edit_library(b"my macro".to_vec());
    s.edit_test(b"my test".to_vec());
    s.select(Some(MacroType::Declarative));
    s.edit_library(b"other macro".to_vec());
    s.select(Some(MacroType::Attribute));
    assert_eq!(s.src_code(), b"my macro");
    assert_eq!(s.test_code(), b"my test");
    s.select(None);
    s.select(Some(MacroType::Declarative));
    assert_eq!(s.src_code(), b"other macro");
}

#[test]
fn second_expansion_is_refused_while_pending() {
    let mut s = fresh_session();
    assert!(s.begin_expand().is_none());
    s.select(Some(MacroType::Declarative));
    let first = s.begin_expand();
    assert!(first.is_some());
    assert!(s.is_pending());
    assert!(s.begin_expand().is_none());
    s.complete_expand(MacroType::Declarative, Err(Error::IOFailed(std::io::ErrorKind::NotFound)));
    assert!(!s.is_pending());
    assert!(s.begin_expand().is_some());
}

#[test]
fn close_tears_down_once() {
    let mut s = fresh_session();
    assert!(s.close());
    assert!(!s.close());
    assert!(!s.close());
}

#[test]
fn toolchain_failure_keeps_expansion() {
    let mut s = fresh_session();
    s.select(Some(MacroType::Derive));
    assert_eq!(s.src_code(), DERIVE_LIB.as_bytes());
    let mut test = s.test_code().to_vec();
    test.extend_from_slice(b"\n#[test]\nfn fails() { assert!(false) }\n");
    s.edit_test(test.clone());
    let req = s.begin_expand().unwrap();
    assert_eq!(req.kind, MacroType::Derive);
    assert_eq!(req.test_code, test);
    let result = classify(Vec::new(), b"error: could not compile".to_vec());
    assert!(matches!(result, Err(Error::CargoFailed(_))));
    s.complete_expand(req.kind, result);
    assert_eq!(s.errors(), b"error: could not compile");
    assert!(s.expansion().is_empty());
}

#[test]
fn unmodified_template_expands() {
    let mut s = fresh_session();
    s.select(Some(MacroType::Function));
    let req = s.begin_expand().unwrap();
    assert_eq!(req.src_code, FUNCTION_LIB.as_bytes().to_vec());
    assert_eq!(req.test_code, FUNCTION_TEST.as_bytes().to_vec());
    let result = classify(b"fn answer() -> u32 { 42 }".to_vec(), Vec::new());
    assert!(matches!(result, Ok(Expansion { .. })));
    s.complete_expand(req.kind, result);
    assert_eq!(s.expansion(), b"fn answer() -> u32 { 42 }");
    assert!(s.errors().is_empty());
}

#[test]
fn io_failure_changes_no_buffer() {
    let mut s = fresh_session();
    s.select(Some(MacroType::Function));
    let req = s.begin_expand().unwrap();
    s.complete_expand(req.kind, classify(b"old".to_vec(), b"w".to_vec()));
    s.begin_expand().unwrap();
    s.complete_expand(MacroType::Function, Err(Error::IOFailed(std::io::ErrorKind::PermissionDenied)));
    assert_eq!(s.expansion(), b"old");
    assert_eq!(s.errors(), b"w");
}

#[test]
fn stale_result_is_discarded() {
    let mut s = fresh_session();
    s.select(Some(MacroType::Attribute));
    let req = s.begin_expand().unwrap();
    s.select(Some(MacroType::Function));
    s.complete_expand(req.kind, classify(b"late".to_vec(), Vec::new()));
    assert!(!s.is_pending());
    assert!(s.expansion().is_empty());
}

#[test]
fn landing_page_keeps_expansion() {
    let mut s = fresh_session();
    s.select(Some(MacroType::Function));
    let req = s.begin_expand().unwrap();
    s.complete_expand(req.kind, classify(b"x".to_vec(), Vec::new()));
    s.select(None);
    assert_eq!(s.expansion(), b"x");
    s.edit_library(b"ignored".to_vec());
    s.select(Some(MacroType::Function));
    assert_eq!(s.src_code(), FUNCTION_LIB.as_bytes());
    assert!(s.expansion().is_empty());
}

#[test]
fn cloned_error_keeps_its_kind() {
    let e = Error::IOFailed(std::io::ErrorKind::PermissionDenied);
    match e.clone() {
        Error::IOFailed(k) => assert_eq!(k, std::io::ErrorKind::PermissionDenied),
        _ => panic!("clone changed the variant"),
    }
}
