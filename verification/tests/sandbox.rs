use sandbox_host::dispatch::HostExternals;
use sandbox_host::guest::{add_one, rec};
use sandbox_host::codec::key_to_str;
use sandbox_host::memory::LinearMemory;
use sandbox_host::resolver::{ImportResolver, DB_GET_INDEX, DB_PUT_INDEX, MULT_TWO_INDEX};
use sandbox_host::session::{call_rec, ExecutionSession};
use sandbox_host::trap::{HostErrorKind, InvokeOutcome, TrapKind};
use sandbox_host::values::{Value, ValueKind};

fn demo_session(pages: u32) -> ExecutionSession {
    let mut resolver = ImportResolver::with_limit(64);
    resolver
        .resolve_memory("memory", pages, Some(pages))
        .expect("memory resolution");
    ExecutionSession::instantiate(&mut resolver)
}

fn key_bytes(key: u32) -> Vec<u8> {
    // the stored key: the 16-byte field without its NUL terminator
    let mut field = key_to_str(key);
    field.truncate(15);
    field
}

#[test]
fn unregistered_slot_always_traps() {
    let mut ext = HostExternals::with_params(LinearMemory::new(1, Some(1)));
    assert_eq!(
        ext.invoke_index(123, &vec![Value::F32Bits(0)]),
        Err(TrapKind::UndefinedImportInvoked)
    );
    assert_eq!(
        ext.invoke_index(0, &Vec::new()),
        Err(TrapKind::UndefinedImportInvoked)
    );
    assert_eq!(
        ext.invoke_index(9999, &vec![Value::I32(1)]),
        Err(TrapKind::UndefinedImportInvoked)
    );
}

#[test]
fn handler_argument_kinds_are_never_coerced() {
    let mut ext = HostExternals::with_params(LinearMemory::new(1, Some(1)));
    assert_eq!(Value::I64(0).kind(), ValueKind::I64);
    assert_eq!(Value::I32(16).kind(), ValueKind::I32);
    let wrong = vec![Value::I64(0), Value::I32(16), Value::I32(4)];
    assert_eq!(ext.invoke_index(DB_GET_INDEX, &wrong), Err(TrapKind::TypeMismatch));
    assert_eq!(ext.invoke_index(DB_PUT_INDEX, &wrong), Err(TrapKind::TypeMismatch));
    assert_eq!(
        ext.invoke_index(MULT_TWO_INDEX, &vec![Value::F64Bits(6)]),
        Err(TrapKind::TypeMismatch)
    );
    assert_eq!(
        ext.invoke_index(MULT_TWO_INDEX, &vec![Value::I32(1), Value::I32(2)]),
        Err(TrapKind::TypeMismatch)
    );
}

#[test]
fn mult_two_handler_doubles_and_aborts_on_overflow() {
    let mut ext = HostExternals::with_params(LinearMemory::new(0, Some(0)));
    assert_eq!(
        ext.invoke_index(MULT_TWO_INDEX, &vec![Value::I32(6)]),
        Ok(Some(Value::I32(12)))
    );
    let r = ext.invoke_index(MULT_TWO_INDEX, &vec![Value::I32(0x7000_0000)]);
    assert!(matches!(r, Err(TrapKind::HostSignaledAbort(_))));
}

#[test]
fn unset_key_returns_the_zero_length_sentinel() {
    let mut ext = HostExternals::with_params(LinearMemory::new(1, Some(1)));
    let args = vec![Value::I32(0), Value::I32(16), Value::I32(4)];
    assert_eq!(ext.invoke_index(DB_GET_INDEX, &args), Ok(Some(Value::I32(0))));
}

#[test]
fn read_key_stops_at_nul_end_or_limit() {
    let mut mem = LinearMemory::new(1, Some(1));
    mem.write(3, &vec![b'a', b'b', b'c', 0, b'd']).unwrap();
    let ext = HostExternals::with_params(mem);
    assert_eq!(ext.read_key(3, 64), vec![b'a', b'b', b'c']);
    assert_eq!(ext.read_key(3, 2), vec![b'a', b'b']);
    assert_eq!(ext.read_key(70000, 64), Vec::<u8>::new());
}

#[test]
fn key_encoding_is_the_fixed_width_decimal_field() {
    assert_eq!(key_to_str(1000), b"key: 0000001000\0".to_vec());
    assert_eq!(key_to_str(0), b"key: 0000000000\0".to_vec());
    assert_eq!(key_to_str(8), b"key: 0000000008\0".to_vec());
    assert_eq!(key_to_str(4294967295), b"key: 4294967295\0".to_vec());
}

#[test]
fn summation_export_computes_triangular_numbers() {
    assert_eq!(rec(1, 10), 55);
    assert_eq!(rec(1, 1), 1);
    assert_eq!(rec(5, 3), 5);
    assert_eq!(rec(0, 65535), 2147450880);
    assert_eq!(add_one(1336), 1337);
}

#[test]
fn recursion_below_the_depth_limit_completes_exactly() {
    let mut session = demo_session(1);
    assert_eq!(call_rec(&mut session, 10), Ok(55));
}

#[test]
fn recursion_beyond_the_depth_limit_traps_with_stack_overflow_only() {
    let mut session = demo_session(1);
    let r = call_rec(&mut session, 65000);
    assert_eq!(r, Err(TrapKind::StackOverflow));
    // the host catches the overflow and keeps operating
    assert_eq!(call_rec(&mut session, 10), Ok(55));
}

#[test]
fn store_store_read_scenario() {
    let mut session = demo_session(1);
    // 1000 -> 12
    let r1 = session.invoke_export("put_int", &vec![Value::I32(1000), Value::I32(12)]);
    assert_eq!(r1, InvokeOutcome::Completed(None));
    // 8 -> 64
    let r2 = session.invoke_export("put_int", &vec![Value::I32(8), Value::I32(64)]);
    assert_eq!(r2, InvokeOutcome::Completed(None));
    // read 1000 back
    let r3 = session.invoke_export("get_int", &vec![Value::I32(1000)]);
    assert_eq!(r3, InvokeOutcome::Completed(Some(Value::I32(12))));
    // the stored value is the four little-endian bytes
    let stored = session.externals.storage.get(&key_bytes(1000)).unwrap();
    assert_eq!(stored, vec![12, 0, 0, 0]);
    let stored8 = session.externals.storage.get(&key_bytes(8)).unwrap();
    assert_eq!(stored8, vec![64, 0, 0, 0]);
}

#[test]
fn negative_values_round_trip_through_the_wire_format() {
    let mut session = demo_session(1);
    session.invoke_export("put_int", &vec![Value::I32(5), Value::I32(-123456)]);
    let r = session.invoke_export("get_int", &vec![Value::I32(5)]);
    assert_eq!(r, InvokeOutcome::Completed(Some(Value::I32(-123456))));
    // two's-complement little-endian bytes of -123456
    let stored = session.externals.storage.get(&key_bytes(5)).unwrap();
    assert_eq!(stored, vec![0xc0, 0x1d, 0xfe, 0xff]);
}

#[test]
fn reading_an_unset_key_fails_the_guest_length_assertion() {
    let mut session = demo_session(1);
    session.invoke_export("put_int", &vec![Value::I32(1000), Value::I32(12)]);
    let r = session.invoke_export("get_int", &vec![Value::I32(9999)]);
    assert_eq!(r, InvokeOutcome::Trapped(TrapKind::Unreachable));
}

#[test]
fn export_argument_kinds_are_never_coerced() {
    let mut session = demo_session(1);
    let r = session.invoke_export("add_one", &vec![Value::I64(1336)]);
    assert_eq!(r, InvokeOutcome::Trapped(TrapKind::TypeMismatch));
    let r2 = session.invoke_export("put_int", &vec![Value::I32(1), Value::F32Bits(2)]);
    assert_eq!(r2, InvokeOutcome::Trapped(TrapKind::TypeMismatch));
    let r3 = session.invoke_export("rec", &vec![Value::I32(1)]);
    assert_eq!(r3, InvokeOutcome::Trapped(TrapKind::TypeMismatch));
}

#[test]
fn invoking_an_unknown_export_is_a_host_error() {
    let mut session = demo_session(1);
    let r = session.invoke_export("no_such_export", &Vec::new());
    assert_eq!(
        r,
        InvokeOutcome::HostError(HostErrorKind::UnknownExport("no_such_export".to_string()))
    );
}

#[test]
fn add_one_and_mult_four_exports_compute() {
    let mut session = demo_session(0);
    let r = session.invoke_export("add_one", &vec![Value::I32(1336)]);
    assert_eq!(r, InvokeOutcome::Completed(Some(Value::I32(1337))));
    let r2 = session.invoke_export("mult_four", &vec![Value::I32(6)]);
    assert_eq!(r2, InvokeOutcome::Completed(Some(Value::I32(24))));
    let r3 = session.invoke_export("mult_four", &vec![Value::I32(0x3000_0000)]);
    assert!(matches!(
        r3,
        InvokeOutcome::Trapped(TrapKind::HostSignaledAbort(_))
    ));
}

#[test]
fn put_int_on_a_memoryless_session_traps_out_of_bounds() {
    // a module that never imported memory gets the zero-sized dummy
    let mut resolver = ImportResolver::with_limit(64);
    let mut session = ExecutionSession::instantiate(&mut resolver);
    let r = session.invoke_export("put_int", &vec![Value::I32(1), Value::I32(2)]);
    assert_eq!(r, InvokeOutcome::Trapped(TrapKind::MemoryAccessOutOfBounds));
}
