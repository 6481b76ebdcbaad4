use sandbox_host::memory::PAGE_SIZE;
use sandbox_host::resolver::{ImportResolver, DB_GET_INDEX, DB_PUT_INDEX, MULT_TWO_INDEX};
use sandbox_host::trap::HostErrorKind;
use sandbox_host::values::{Signature, ValueKind};

fn sig(params: Vec<ValueKind>, ret: Option<ValueKind>) -> Signature {
    Signature::new(params, ret)
}

#[test]
fn unknown_field_name_fails_for_any_namespace() {
    let r = ImportResolver::with_limit(64);
    let s = sig(vec![ValueKind::I32], Some(ValueKind::I32));
    let e = r.resolve_func("env", "no_such_fn", &s).unwrap_err();
    assert_eq!(
        e,
        HostErrorKind::UnknownImport("env".to_string(), "no_such_fn".to_string())
    );
    let e2 = r.resolve_func("other_ns", "db_get", &s).unwrap_err();
    assert_eq!(
        e2,
        HostErrorKind::UnknownImport("other_ns".to_string(), "db_get".to_string())
    );
    let e3 = r.resolve_func("", "", &s).unwrap_err();
    assert!(matches!(e3, HostErrorKind::UnknownImport(_, _)));
}

#[test]
fn known_imports_resolve_to_their_slots() {
    let r = ImportResolver::with_limit(64);
    let three = vec![ValueKind::I32, ValueKind::I32, ValueKind::I32];
    let b = r
        .resolve_func("env", "db_get", &sig(three.clone(), Some(ValueKind::I32)))
        .unwrap();
    assert_eq!(b.slot, DB_GET_INDEX);
    let b2 = r.resolve_func("env", "db_put", &sig(three, None)).unwrap();
    assert_eq!(b2.slot, DB_PUT_INDEX);
    let b3 = r
        .resolve_func("env", "mult_two", &sig(vec![ValueKind::I32], Some(ValueKind::I32)))
        .unwrap();
    assert_eq!(b3.slot, MULT_TWO_INDEX);
}

#[test]
fn declared_signature_must_match_the_host_handler() {
    let r = ImportResolver::with_limit(64);
    // wrong arity
    let e = r
        .resolve_func("env", "db_get", &sig(vec![ValueKind::I32], Some(ValueKind::I32)))
        .unwrap_err();
    assert_eq!(e, HostErrorKind::SignatureMismatch("db_get".to_string()));
    // wrong return kind
    let e2 = r
        .resolve_func("env", "mult_two", &sig(vec![ValueKind::I32], Some(ValueKind::I64)))
        .unwrap_err();
    assert_eq!(e2, HostErrorKind::SignatureMismatch("mult_two".to_string()));
    // wrong parameter kind
    let e3 = r
        .resolve_func("env", "mult_two", &sig(vec![ValueKind::F64], Some(ValueKind::I32)))
        .unwrap_err();
    assert_eq!(e3, HostErrorKind::SignatureMismatch("mult_two".to_string()));
}

#[test]
fn memory_at_exactly_the_limit_succeeds_and_one_page_more_fails() {
    let mut ok = ImportResolver::with_limit(4);
    assert_eq!(ok.resolve_memory("memory", 4, Some(4)), Ok(()));
    assert_eq!(ok.memory_size(), Ok(4));
    let mem = ok.memory_ref();
    assert_eq!(mem.size_bytes(), 4 * PAGE_SIZE);

    let mut too_big = ImportResolver::with_limit(4);
    assert_eq!(
        too_big.resolve_memory("memory", 5, Some(5)),
        Err(HostErrorKind::MemoryLimitExceeded)
    );
    let mut max_too_big = ImportResolver::with_limit(4);
    assert_eq!(
        max_too_big.resolve_memory("memory", 1, Some(5)),
        Err(HostErrorKind::MemoryLimitExceeded)
    );
}

#[test]
fn memory_without_declared_maximum_is_refused() {
    let mut r = ImportResolver::with_limit(4);
    assert_eq!(
        r.resolve_memory("memory", 1, None),
        Err(HostErrorKind::MemoryLimitExceeded)
    );
}

#[test]
fn memory_under_unknown_name_is_refused() {
    let mut r = ImportResolver::with_limit(4);
    let e = r.resolve_memory("shared_buf", 1, Some(1)).unwrap_err();
    assert_eq!(
        e,
        HostErrorKind::UnknownImport("env".to_string(), "shared_buf".to_string())
    );
}

#[test]
fn second_memory_import_is_refused() {
    let mut r = ImportResolver::with_limit(4);
    assert_eq!(r.resolve_memory("memory", 1, Some(2)), Ok(()));
    assert_eq!(
        r.resolve_memory("memory", 1, Some(1)),
        Err(HostErrorKind::UnsupportedMultipleMemories)
    );
}

#[test]
fn dummy_memory_when_module_imports_none() {
    let mut r = ImportResolver::with_limit(4);
    assert_eq!(r.memory_size(), Ok(0));
    let mem = r.memory_ref();
    assert_eq!(mem.size_bytes(), 0);
}
