use vstd::prelude::*;
use crate::bridge::{ActionMessage, Observer};
use crate::context::{decimal_of, ExecutionContext, Runtime};
use crate::engine::{EngineFailure, HostImports};
use crate::error::{RibosomeError, Stage};
use crate::host::{is_unresolved, spec_resolve, ValType};
use std::sync::mpsc::Sender;

verus! {

/// A guest import as the module declares it: namespace, name, and the
/// signature where it is a function (`None` for a table, memory or global).
pub type ImportDecl = (Seq<char>, Seq<char>, Option<(Seq<ValType>, Option<ValType>)>);

/// Whether wasmi decodes and validates `wasm` as a module.
pub uninterp spec fn wasm_decodes(wasm: Seq<u8>) -> bool;

/// The imports of the module `wasm`, in the order in which it declares them.
pub uninterp spec fn wasm_imports(wasm: Seq<u8>) -> Seq<(Seq<char>, Seq<char>, Option<(Seq<ValType>, Option<ValType>)>)>;

/// Whether wasmi, once every import of `wasm` is bound to the host function
/// of that name and signature, lays out its globals, tables, memories and
/// segments without error.
pub uninterp spec fn wasm_initialises(wasm: Seq<u8>) -> bool;

/// Whether the module `wasm` exports a linear memory named `memory`.
pub uninterp spec fn wasm_exports_memory(wasm: Seq<u8>) -> bool;

/// Whether the host function table binds the import `i`.
pub open spec fn import_binds(i: ImportDecl) -> bool {
    match i.2 {
        Some(signature) => spec_resolve(i.0, i.1) matches Some(f) && f.spec_signature() == signature,
        None => false,
    }
}

/// The name of the first import that the table does not bind, if any.
pub open spec fn first_unbound(imports: Seq<ImportDecl>) -> Option<Seq<char>>
    decreases imports.len(),
{
    if imports.len() == 0 {
        None
    } else if !import_binds(imports[0]) {
        Some(imports[0].1)
    } else {
        first_unbound(imports.drop_first())
    }
}

/// Whether `wasm` decodes and every one of its imports binds.
pub open spec fn wasm_links(wasm: Seq<u8>) -> bool {
    wasm_decodes(wasm) && first_unbound(wasm_imports(wasm)) is None && wasm_initialises(wasm)
}

/// What loading and linking a module came to.
pub enum LinkOutcome {
    /// The bytes are not a valid module.
    Undecodable,
    /// The host refused the import of this name.
    ImportRejected(String),
    /// Linking failed for another reason.
    Failed,
    /// The linked instance, not started, and its `memory` export if it is a
    /// memory.
    Linked(wasmi::ModuleRef, Option<wasmi::MemoryRef>),
}

impl LinkOutcome {
    pub open spec fn undecodable(&self) -> bool {
        self is Undecodable
    }

    /// The name of the refused import, where one was refused.
    pub open spec fn rejected(&self) -> Option<Seq<char>> {
        match self {
            LinkOutcome::ImportRejected(name) => Some(name@),
            _ => None,
        }
    }

    pub open spec fn linked(&self) -> bool {
        self is Linked
    }

    pub open spec fn memory_found(&self) -> bool {
        self matches LinkOutcome::Linked(_, memory) && memory is Some
    }
}

/// Relies on `wasmi::Module::from_buffer` to decode and validate; on
/// `wasmi::ModuleInstance::new`, which asks `HostImports` for each import in
/// order and stops at the first it refuses, passing its error on; on
/// `NotStartedModuleRef::not_started_instance`, which runs no start
/// function; and on `export_by_name` with `ExternVal::as_memory`.
#[verifier::external_body]
fn link(wasm: Vec<u8>) -> (r: LinkOutcome)
    ensures
        r.undecodable() == !wasm_decodes(wasm@),
        wasm_decodes(wasm@) && first_unbound(wasm_imports(wasm@)) is Some ==> r.rejected() == first_unbound(wasm_imports(wasm@)),
        wasm_decodes(wasm@) && first_unbound(wasm_imports(wasm@)) is None && wasm_initialises(wasm@) ==> r.linked(),
        r.linked() ==> r.memory_found() == wasm_exports_memory(wasm@),
{
    let module = match wasmi::Module::from_buffer(wasm) {
        Ok(module) => module,
        Err(_) => return LinkOutcome::Undecodable,
    };
    match wasmi::ModuleInstance::new(&module, &HostImports) {
        Ok(linked) => {
            let instance = linked.not_started_instance().clone();
            let memory = instance.export_by_name("memory").as_ref().and_then(wasmi::ExternVal::as_memory).cloned();
            LinkOutcome::Linked(instance, memory)
        },
        Err(wasmi::Error::Function(name)) => LinkOutcome::ImportRejected(name),
        Err(_) => LinkOutcome::Failed,
    }
}

/// Relies on `wasmi::MemoryInstance::set`: `true` where `bytes` were written
/// at `offset`, `false` where the region is out of bounds.
#[verifier::external_body]
fn memory_set(memory: &wasmi::MemoryRef, offset: u32, bytes: &[u8]) -> (r: bool) {
    memory.set(offset, bytes).is_ok()
}

/// Relies on `wasmi::ModuleInstance::invoke_export`: runs the export of that
/// name with no arguments; host calls reach `context` through its
/// `Externals` impl.
#[verifier::external_body]
fn invoke_export(
    instance: &wasmi::ModuleRef,
    name: &str,
    context: &mut ExecutionContext,
) -> (r: Result<Option<wasmi::RuntimeValue>, wasmi::Error>) {
    instance.invoke_export(name, &[], context)
}

/// Relies on `wasmi::RuntimeValue::try_into::<i32>`: the value where it is an
/// `i32`, else `None`.
#[verifier::external_body]
fn value_as_i32(value: wasmi::RuntimeValue) -> (r: Option<i32>) {
    value.try_into::<i32>()
}

/// The bytes written into guest memory at offset zero before the export runs.
/// Until an argument-passing convention is settled this block is fixed.
pub fn parameter_block() -> (r: Vec<u8>)
    ensures
        r@ == seq![6u8, 7u8, 8u8],
{
    let r = vec![6u8, 7u8, 8u8];
    assert(r@ =~= seq![6u8, 7u8, 8u8]);
    r
}

/// The error of a call whose linking failed: an import the host rejected is
/// named, anything else is a linking failure.
pub fn instantiation_error(failure: EngineFailure) -> (r: RibosomeError)
    ensures
        failure matches EngineFailure::Function(name) ==> r == (RibosomeError::ImportUnresolved { name }),
        !(failure is Function) ==> r == RibosomeError::InstantiationFailed,
{
    match failure {
        EngineFailure::Function(name) => RibosomeError::ImportUnresolved { name },
        _ => RibosomeError::InstantiationFailed,
    }
}

/// The error of a call whose export did not complete. A failed host call
/// that the guest unwound from is reported as itself; otherwise the export
/// was not found, or the guest trapped.
pub fn invocation_error(fault: Option<RibosomeError>, failure: EngineFailure, export: &str) -> (r: RibosomeError)
    ensures
        fault matches Some(e) ==> r == e,
        fault is None && failure is Function ==> (r matches RibosomeError::ExportNotFound { name } && name@ == export@),
        fault is None && !(failure is Function) ==> r == RibosomeError::GuestTrapped,
{
    match fault {
        Some(e) => e,
        None => match failure {
            EngineFailure::Function(_) => RibosomeError::ExportNotFound { name: export.to_owned() },
            _ => RibosomeError::GuestTrapped,
        },
    }
}

/// Turns what the export returned into the call's outcome. Only a single
/// `i32` is a result; a failed host call recorded in the context wins over
/// anything returned.
pub fn complete(context: ExecutionContext, returned: Option<i32>) -> (r: Result<Runtime, RibosomeError>)
    ensures
        context.fault() matches Some(e) ==> r == Err::<Runtime, RibosomeError>(e),
        r matches Err(e) ==> e.spec_stage() == Stage::Execute,
        context.fault() is None && returned is None ==> r matches Err(RibosomeError::ReturnTypeMismatch),
        context.fault() is None && returned is Some ==> (r matches Ok(rt) && {
            &&& rt.print_output@ == context.output()
            &&& rt.committed@ == context.commits()
            &&& rt.result@ == decimal_of(returned->0 as int)
        }),
{
    let mut context = context;
    match context.take_fault() {
        Some(e) => Err(e),
        None => match returned {
            Some(v) => Ok(context.finish(v)),
            None => Err(RibosomeError::ReturnTypeMismatch),
        },
    }
}

/// The outcome of priming memory from whether a `memory` export was found
/// and whether the parameter block could be written into it.
pub fn priming_outcome(memory_found: bool, written: bool) -> (r: Result<(), RibosomeError>)
    ensures
        !memory_found ==> r == Err::<(), RibosomeError>(RibosomeError::MemoryExportMissing),
        memory_found && !written ==> r == Err::<(), RibosomeError>(RibosomeError::MemoryNotWritable),
        memory_found && written ==> r is Ok,
{
    if !memory_found {
        Err(RibosomeError::MemoryExportMissing)
    } else if !written {
        Err(RibosomeError::MemoryNotWritable)
    } else {
        Ok(())
    }
}

/// Writes the parameter block at offset zero of the module's `memory`
/// export, where there is one.
pub fn prime_memory(memory: &Option<wasmi::MemoryRef>) -> (r: Result<(), RibosomeError>)
    ensures
        memory is None ==> r == Err::<(), RibosomeError>(RibosomeError::MemoryExportMissing),
        memory is Some ==> r is Ok || r == Err::<(), RibosomeError>(RibosomeError::MemoryNotWritable),
{
    match memory {
        None => priming_outcome(false, false),
        Some(memory) => {
            let block = parameter_block();
            let written = memory_set(memory, 0, block.as_slice());
            priming_outcome(true, written)
        },
    }
}

/// Runs the export `function_name` of the module `wasm` with no arguments.
///
/// Loading, linking and finding `memory` depend on the bytes alone: bytes
/// that do not decode give `BytecodeInvalid`, the first import the table does
/// not bind gives `ImportUnresolved` with its name, and a module that links
/// but has no `memory` export gives `MemoryExportMissing`, all before any
/// guest code runs.
///
/// The stages run in order: load the bytecode, link its imports against the
/// host function table (running no start function), write the parameter
/// block into its `memory`, run the export, and read its `i32` result. The
/// first stage that fails ends the call with its error and no outcome. State
/// mutations the guest commits go out on clones of the two channels, and each
/// commit returns to the guest only once the store has applied it.
pub fn call(
    action_channel: &Sender<ActionMessage>,
    observer_channel: &Sender<Observer>,
    wasm: Vec<u8>,
    function_name: &str,
) -> (r: Result<Runtime, RibosomeError>)
    ensures
        !wasm_decodes(wasm@) ==> r == Err::<Runtime, RibosomeError>(RibosomeError::BytecodeInvalid),
        wasm_decodes(wasm@) && first_unbound(wasm_imports(wasm@)) is Some
            ==> is_unresolved(r, first_unbound(wasm_imports(wasm@))->0),
        wasm_links(wasm@) ==> (r matches Err(e) ==> e.spec_stage() == Stage::PrimeMemory || e.spec_stage() == Stage::Execute),
        wasm_links(wasm@) && !wasm_exports_memory(wasm@)
            ==> r == Err::<Runtime, RibosomeError>(RibosomeError::MemoryExportMissing),
        r matches Ok(rt) ==> exists|v: i32| rt.result@ == decimal_of(v as int),
{
    let (instance, memory) = match link(wasm) {
        LinkOutcome::Undecodable => return Err(RibosomeError::BytecodeInvalid),
        LinkOutcome::ImportRejected(name) => return Err(instantiation_error(EngineFailure::Function(name))),
        LinkOutcome::Failed => return Err(instantiation_error(EngineFailure::Instantiation)),
        LinkOutcome::Linked(instance, memory) => (instance, memory),
    };
    match prime_memory(&memory) {
        Ok(()) => {},
        Err(e) => return Err(e),
    }
    let mut context = ExecutionContext::new(action_channel, observer_channel);
    match invoke_export(&instance, function_name, &mut context) {
        Ok(Some(value)) => complete(context, value_as_i32(value)),
        Ok(None) => complete(context, None),
        Err(e) => {
            let fault = context.take_fault();
            Err(invocation_error(fault, crate::engine::engine_failure(e), function_name))
        },
    }
}

} // verus!
