use ribosome::bridge::dispatch_outcome;
use ribosome::invoker::priming_outcome;
use ribosome::host::{resolve_import, bind_import, str_eq, same_signature};
use ribosome::{call, Stage, ActionMessage, Entry, ExecutionContext, HostFunction, HostSignature, Observer, RibosomeError, ValType};
use std::sync::mpsc::{channel, Receiver, Sender};

const T_RET_I32: u8 = 0;
const T_I32: u8 = 1;
const T_NONE: u8 = 2;
const T_I32_I32_RET_I32: u8 = 3;

fn section(id: u8, content: Vec<u8>) -> Vec<u8> {
    assert!(content.len() < 128);
    let mut out = vec![id, content.len() as u8];
    out.extend(content);
    out
}

fn name(s: &str) -> Vec<u8> {
    let mut out = vec![s.len() as u8];
    out.extend(s.as_bytes());
    out
}

/// A module with the four types above, imports `(namespace, name, type)`,
/// local functions `(type, body)`, an optional memory of 17 pages exported as
/// `memory`, and function exports `(name, function index)`.
fn module(
    imports: &[(&str, &str, u8)],
    funcs: &[(u8, Vec<u8>)],
    with_memory: bool,
    exports: &[(&str, u8)],
) -> Vec<u8> {
    let mut out = vec![0x00, 0x61, 0x73, 0x6d, 0x01, 0x00, 0x00, 0x00];
    out.extend(section(
        1,
        vec![
            4, 0x60, 0x00, 0x01, 0x7f, 0x60, 0x01, 0x7f, 0x00, 0x60, 0x00, 0x00, 0x60, 0x02, 0x7f,
            0x7f, 0x01, 0x7f,
        ],
    ));
    if !imports.is_empty() {
        let mut c = vec![imports.len() as u8];
        for (ns, field, ty) in imports {
            c.extend(name(ns));
            c.extend(name(field));
            c.push(0x00);
            c.push(*ty);
        }
        out.extend(section(2, c));
    }
    let mut c = vec![funcs.len() as u8];
    for (ty, _) in funcs {
        c.push(*ty);
    }
    out.extend(section(3, c));
    if with_memory {
        out.extend(section(5, vec![1, 0x00, 17]));
    }
    let mut c = vec![(exports.len() + with_memory as usize) as u8];
    if with_memory {
        c.extend(name("memory"));
        c.extend([0x02, 0x00]);
    }
    for (n, idx) in exports {
        c.extend(name(n));
        c.extend([0x00, *idx]);
    }
    out.extend(section(7, c));
    let mut c = vec![funcs.len() as u8];
    for (_, body) in funcs {
        let mut b = vec![0x00];
        b.extend(body);
        b.push(0x0b);
        c.push(b.len() as u8);
        c.extend(b);
    }
    out.extend(section(10, c));
    out
}

/// Signed LEB128, as `i32.const` takes it.
fn sleb(mut v: i64) -> Vec<u8> {
    let mut out = Vec::new();
    loop {
        let byte = (v & 0x7f) as u8;
        v >>= 7;
        let done = (v == 0 && byte & 0x40 == 0) || (v == -1 && byte & 0x40 != 0);
        out.push(if done { byte } else { byte | 0x80 });
        if done {
            return out;
        }
    }
}

fn i32_const(v: i32) -> Vec<u8> {
    let mut out = vec![0x41];
    out.extend(sleb(v as i64));
    out
}

/// Calls `print(v)` once, then returns `ret`.
fn print_then_return(v: i32, ret: i32) -> Vec<u8> {
    let mut body = i32_const(v);
    body.extend([0x10, 0x00]);
    body.extend(i32_const(ret));
    module(&[("env", "print", T_I32)], &[(T_RET_I32, body)], true, &[("test_print", 1)])
}

/// A guest whose `test_print` prints 1337 and returns 0, beside a table, a
/// global and a second export.
fn test_wasm() -> Vec<u8> {
    vec![
        0x00, 0x61, 0x73, 0x6d, 0x01, 0x00, 0x00, 0x00, // header
        0x01, 0x0c, 0x03, 0x60, 0x00, 0x01, 0x7f, 0x60, 0x01, 0x7f, 0x00, 0x60, 0x00, 0x00, // types
        0x02, 0x0d, 0x01, 0x03, 0x65, 0x6e, 0x76, 0x05, 0x70, 0x72, 0x69, 0x6e, 0x74, 0x00, 0x01, // import env.print
        0x03, 0x03, 0x02, 0x00, 0x02, // functions
        0x04, 0x05, 0x01, 0x70, 0x01, 0x01, 0x01, // table 1 1 anyfunc
        0x05, 0x03, 0x01, 0x00, 0x11, // memory 17
        0x06, 0x09, 0x01, 0x7f, 0x01, 0x41, 0x80, 0x88, 0xc0, 0x00, 0x0b, // global mut i32 1049600
        0x07, 0x2d, 0x03, // exports
        0x06, 0x6d, 0x65, 0x6d, 0x6f, 0x72, 0x79, 0x02, 0x00, // "memory"
        0x0a, 0x74, 0x65, 0x73, 0x74, 0x5f, 0x70, 0x72, 0x69, 0x6e, 0x74, 0x00, 0x01, // "test_print"
        0x13, 0x72, 0x75, 0x73, 0x74, 0x5f, 0x65, 0x68, 0x5f, 0x70, 0x65, 0x72, 0x73, 0x6f, 0x6e,
        0x61, 0x6c, 0x69, 0x74, 0x79, 0x00, 0x02, // "rust_eh_personality"
        0x0a, 0x0e, 0x02, // code
        0x09, 0x00, 0x41, 0xb9, 0x0a, 0x10, 0x00, 0x41, 0x00, 0x0b, // test_print
        0x02, 0x00, 0x0b, // rust_eh_personality
    ]
}

fn channels() -> (Sender<ActionMessage>, Receiver<ActionMessage>, Sender<Observer>, Receiver<Observer>) {
    let (action_channel, actions) = channel::<ActionMessage>();
    let (tx_observer, observers) = channel::<Observer>();
    (action_channel, actions, tx_observer, observers)
}

#[test]
fn test_print() {
    let (action_channel, _) = channel::<ActionMessage>();
    let (tx_observer, _observer) = channel::<Observer>();
    let runtime = call(&action_channel, &tx_observer, test_wasm(), "test_print").expect("test_print should be callable");
    assert_eq!(runtime.print_output.len(), 1);
    assert_eq!(runtime.print_output[0], 1337)
}

#[test]
fn test_print_outcome_is_exact() {
    let (a, _ar, o, _or) = channels();
    let runtime = call(&a, &o, test_wasm(), "test_print").unwrap();
    assert_eq!(runtime.print_output, vec![1337]);
    assert_eq!(runtime.result, "0");
    assert!(runtime.committed.is_empty());
}

#[test]
fn print_of_any_value_is_the_only_output() {
    for v in [0, 1, -1, 42, i32::MAX, i32::MIN] {
        let (a, actions, o, observers) = channels();
        let runtime = call(&a, &o, print_then_return(v, 5), "test_print").unwrap();
        assert_eq!(runtime.print_output, vec![v as u32]);
        assert_eq!(runtime.result, "5");
        assert!(runtime.committed.is_empty());
        assert!(actions.try_recv().is_err());
        assert!(observers.try_recv().is_err());
    }
}

#[test]
fn export_without_host_calls() {
    for (v, text) in [(42, "42"), (0, "0"), (-7, "-7"), (i32::MIN, "-2147483648")] {
        let (a, _ar, o, _or) = channels();
        let wasm = module(&[], &[(T_RET_I32, i32_const(v))], true, &[("answer", 0)]);
        let runtime = call(&a, &o, wasm, "answer").unwrap();
        assert!(runtime.print_output.is_empty());
        assert_eq!(runtime.result, text);
    }
}

#[test]
fn missing_export_is_reported() {
    let (a, _ar, o, _or) = channels();
    let r = call(&a, &o, test_wasm(), "no_such_export");
    assert_eq!(r.err(), Some(RibosomeError::ExportNotFound { name: "no_such_export".to_string() }));
}

#[test]
fn module_without_memory_is_refused() {
    let (a, _ar, o, _or) = channels();
    let mut body = i32_const(9);
    body.extend([0x10, 0x00]);
    body.extend(i32_const(0));
    let wasm = module(&[("env", "print", T_I32)], &[(T_RET_I32, body)], false, &[("run", 1)]);
    let r = call(&a, &o, wasm, "run");
    assert_eq!(r.err(), Some(RibosomeError::MemoryExportMissing));
}

#[test]
fn unknown_import_is_refused() {
    let (a, _ar, o, _or) = channels();
    let wasm = module(&[("env", "launch", T_I32)], &[(T_RET_I32, i32_const(0))], true, &[("run", 1)]);
    let r = call(&a, &o, wasm, "run");
    assert_eq!(r.err(), Some(RibosomeError::ImportUnresolved { name: "launch".to_string() }));
}

#[test]
fn import_from_other_namespace_is_refused() {
    let (a, _ar, o, _or) = channels();
    let wasm = module(&[("host", "print", T_I32)], &[(T_RET_I32, i32_const(0))], true, &[("run", 1)]);
    let r = call(&a, &o, wasm, "run");
    assert_eq!(r.err(), Some(RibosomeError::ImportUnresolved { name: "print".to_string() }));
}

#[test]
fn import_with_wrong_signature_is_refused() {
    let (a, _ar, o, _or) = channels();
    let wasm = module(&[("env", "print", T_RET_I32)], &[(T_RET_I32, i32_const(0))], true, &[("run", 1)]);
    let r = call(&a, &o, wasm, "run");
    assert_eq!(r.err(), Some(RibosomeError::ImportUnresolved { name: "print".to_string() }));
}

#[test]
fn malformed_bytecode_is_refused() {
    let (a, _ar, o, _or) = channels();
    assert_eq!(call(&a, &o, vec![1, 2, 3], "run").err(), Some(RibosomeError::BytecodeInvalid));
    let mut truncated = test_wasm();
    truncated.truncate(30);
    assert_eq!(call(&a, &o, truncated, "test_print").err(), Some(RibosomeError::BytecodeInvalid));
}

#[test]
fn export_returning_nothing_is_a_mismatch() {
    let (a, _ar, o, _or) = channels();
    let wasm = module(&[], &[(T_NONE, vec![])], true, &[("run", 0)]);
    assert_eq!(call(&a, &o, wasm, "run").err(), Some(RibosomeError::ReturnTypeMismatch));
}

#[test]
fn trapping_guest_is_reported() {
    let (a, _ar, o, _or) = channels();
    let wasm = module(&[], &[(T_RET_I32, vec![0x00])], true, &[("run", 0)]);
    assert_eq!(call(&a, &o, wasm, "run").err(), Some(RibosomeError::GuestTrapped));
}

#[test]
fn commit_on_closed_channel_is_reported() {
    let (a, actions, o, _or) = channels();
    drop(actions);
    let mut body = i32_const(3);
    body.extend(i32_const(4));
    body.extend([0x10, 0x00]);
    let wasm = module(&[("env", "commit", T_I32_I32_RET_I32)], &[(T_RET_I32, body)], true, &[("run", 1)]);
    assert_eq!(call(&a, &o, wasm, "run").err(), Some(RibosomeError::DispatchChannelClosed));
}

#[test]
fn resolution_follows_the_table() {
    assert_eq!(resolve_import("env", "print"), Ok(HostFunction::Print));
    assert_eq!(resolve_import("env", "commit"), Ok(HostFunction::Commit));
    assert_eq!(HostFunction::Print.index(), 0);
    assert_eq!(HostFunction::Commit.index(), 1);
    assert_eq!(HostFunction::Print.signature(), HostSignature { params: vec![ValType::I32], result: None });
    assert_eq!(
        HostFunction::Commit.signature(),
        HostSignature { params: vec![ValType::I32, ValType::I32], result: Some(ValType::I32) }
    );
    for f in HostFunction::table() {
        assert_eq!(resolve_import("env", f.name()), Ok(f));
        assert_eq!(HostFunction::from_index(f.index()), Some(f));
    }
    assert_eq!(resolve_import("env", "printf"), Err(RibosomeError::ImportUnresolved { name: "printf".to_string() }));
    assert_eq!(resolve_import("env", ""), Err(RibosomeError::ImportUnresolved { name: "".to_string() }));
    assert_eq!(resolve_import("envx", "print"), Err(RibosomeError::ImportUnresolved { name: "print".to_string() }));
    assert_eq!(HostFunction::from_index(2), None);
}

#[test]
fn binding_checks_the_signature() {
    let print_sig = HostSignature { params: vec![ValType::I32], result: None };
    let wrong = HostSignature { params: vec![ValType::I64], result: None };
    assert_eq!(bind_import("env", "print", &print_sig), Ok(HostFunction::Print));
    assert_eq!(bind_import("env", "print", &wrong), Err(RibosomeError::ImportUnresolved { name: "print".to_string() }));
    assert_eq!(bind_import("env", "commit", &print_sig), Err(RibosomeError::ImportUnresolved { name: "commit".to_string() }));
    assert!(same_signature(&print_sig, &print_sig.clone()));
    assert!(!same_signature(&print_sig, &wrong));
    assert!(str_eq("abc", "abc"));
    assert!(!str_eq("abc", "abd"));
    assert!(!str_eq("abc", "ab"));
}

#[test]
fn host_call_outside_the_table_is_a_typed_fault() {
    let (a, _ar, o, _or) = channels();
    let mut context = ExecutionContext::new(&a, &o);
    assert_eq!(context.host_call(2, &vec![1]), Err(RibosomeError::UnknownHostCall { index: 2 }));
    assert_eq!(context.host_call(usize::MAX, &vec![]), Err(RibosomeError::UnknownHostCall { index: usize::MAX }));
    assert_eq!(context.host_call(0, &vec![1, 2]), Err(RibosomeError::HostCallArgumentMismatch { index: 0 }));
    assert_eq!(context.host_call(0, &vec![-2]), Ok(None));
    let runtime = context.finish(12);
    assert_eq!(runtime.print_output, vec![u32::MAX - 1]);
    assert_eq!(runtime.result, "12");
}

#[test]
fn commit_sends_the_entry_before_waiting() {
    let (a, actions, o, observers) = channels();
    drop(observers);
    let mut context = ExecutionContext::new(&a, &o);
    assert_eq!(context.host_call(1, &vec![3, 4]), Err(RibosomeError::DispatchChannelClosed));
    let entry = Entry { entry_type: 3, content: 4 };
    assert_eq!(actions.try_recv(), Ok(ActionMessage::Commit { token: 0, entry }));
    assert_eq!(ActionMessage::Commit { token: 7, entry }.token(), 7);
    assert_eq!(context.host_call(1, &vec![3]), Err(RibosomeError::HostCallArgumentMismatch { index: 1 }));
    let runtime = context.finish(-1);
    assert!(runtime.committed.is_empty());
    assert_eq!(runtime.result, "-1");
}

#[test]
fn repeated_calls_keep_their_own_output() {
    let (a, _ar, o, _or) = channels();
    let first = call(&a, &o, print_then_return(100, 1), "test_print").unwrap();
    let second = call(&a, &o, print_then_return(200, 2), "test_print").unwrap();
    let third = call(&a, &o, print_then_return(100, 1), "test_print").unwrap();
    assert_eq!(first.print_output, vec![100]);
    assert_eq!(second.print_output, vec![200]);
    assert_eq!(third.print_output, vec![100]);
    assert_eq!((first.result, second.result), ("1".to_string(), "2".to_string()));
}

#[test]
fn failures_carry_their_stage() {
    assert_eq!(RibosomeError::BytecodeInvalid.stage(), Stage::Load);
    assert_eq!(RibosomeError::ImportUnresolved { name: "x".to_string() }.stage(), Stage::Instantiate);
    assert_eq!(RibosomeError::InstantiationFailed.stage(), Stage::Instantiate);
    assert_eq!(RibosomeError::MemoryExportMissing.stage(), Stage::PrimeMemory);
    assert_eq!(RibosomeError::MemoryNotWritable.stage(), Stage::PrimeMemory);
    assert_eq!(RibosomeError::ExportNotFound { name: "x".to_string() }.stage(), Stage::Execute);
    assert_eq!(RibosomeError::DispatchChannelClosed.stage(), Stage::Execute);
    assert!(RibosomeError::MemoryExportMissing.before_guest());
    assert!(!RibosomeError::UnknownHostCall { index: 9 }.before_guest());
}

#[test]
fn priming_outcome_follows_what_was_found() {
    assert_eq!(priming_outcome(false, false), Err(RibosomeError::MemoryExportMissing));
    assert_eq!(priming_outcome(false, true), Err(RibosomeError::MemoryExportMissing));
    assert_eq!(priming_outcome(true, false), Err(RibosomeError::MemoryNotWritable));
    assert_eq!(priming_outcome(true, true), Ok(()));
}

#[test]
fn first_unbound_import_is_named() {
    let (a, _ar, o, _or) = channels();
    let wasm = module(
        &[("env", "print", T_I32), ("env", "launch", T_I32), ("env", "land", T_I32)],
        &[(T_RET_I32, i32_const(0))],
        false,
        &[("run", 3)],
    );
    assert_eq!(call(&a, &o, wasm, "run").err(), Some(RibosomeError::ImportUnresolved { name: "launch".to_string() }));
}

#[test]
fn module_importing_both_host_functions_links() {
    let (a, _ar, o, _or) = channels();
    let wasm = module(
        &[("env", "print", T_I32), ("env", "commit", T_I32_I32_RET_I32)],
        &[(T_RET_I32, i32_const(3))],
        true,
        &[("run", 2)],
    );
    let runtime = call(&a, &o, wasm, "run").unwrap();
    assert_eq!(runtime.result, "3");
    assert!(runtime.print_output.is_empty());
    let copy = runtime.clone();
    assert_eq!(copy.result, "3");
}

#[test]
fn dispatch_succeeds_only_when_applied() {
    assert_eq!(dispatch_outcome(true, true, true), Ok(()));
    assert_eq!(dispatch_outcome(true, true, false), Err(RibosomeError::DispatchChannelClosed));
    assert_eq!(dispatch_outcome(true, false, false), Err(RibosomeError::DispatchChannelClosed));
    assert_eq!(dispatch_outcome(false, false, false), Err(RibosomeError::DispatchChannelClosed));
}
