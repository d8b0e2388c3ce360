use vstd::prelude::*;
use crate::context::ExecutionContext;
use crate::error::RibosomeError;
use crate::host::{bind_import, HostSignature, ValType};

verus! {

#[verifier::external_type_specification]
#[verifier::external_body]
pub struct ExModule(wasmi::Module);

#[verifier::external_type_specification]
#[verifier::external_body]
pub struct ExModuleRef(wasmi::ModuleRef);

#[verifier::external_type_specification]
#[verifier::external_body]
pub struct ExExternVal(wasmi::ExternVal);

#[verifier::external_type_specification]
#[verifier::external_body]
pub struct ExMemoryRef(wasmi::MemoryRef);

#[verifier::external_type_specification]
#[verifier::external_body]
pub struct ExFuncRef(wasmi::FuncRef);

#[verifier::external_type_specification]
#[verifier::external_body]
pub struct ExGlobalRef(wasmi::GlobalRef);

#[verifier::external_type_specification]
#[verifier::external_body]
pub struct ExTableRef(wasmi::TableRef);

#[verifier::external_type_specification]
#[verifier::external_body]
pub struct ExSignature(wasmi::Signature);

#[verifier::external_type_specification]
#[verifier::external_body]
pub struct ExGlobalDescriptor(wasmi::GlobalDescriptor);

#[verifier::external_type_specification]
#[verifier::external_body]
pub struct ExMemoryDescriptor(wasmi::MemoryDescriptor);

#[verifier::external_type_specification]
#[verifier::external_body]
pub struct ExTableDescriptor(wasmi::TableDescriptor);

#[verifier::external_type_specification]
#[verifier::external_body]
pub struct ExRuntimeArgs<'a>(wasmi::RuntimeArgs<'a>);

#[verifier::external_type_specification]
#[verifier::external_body]
pub struct ExRuntimeValue(wasmi::RuntimeValue);

#[verifier::external_type_specification]
#[verifier::external_body]
pub struct ExTrap(wasmi::Trap);

#[verifier::external_type_specification]
#[verifier::external_body]
pub struct ExError(wasmi::Error);

/// The interpreter's errors, as far as the stages of a call tell them apart.
pub enum EngineFailure {
    /// The bytecode failed to decode or validate.
    Validation,
    /// Linking failed inside the interpreter.
    Instantiation,
    /// A function-level failure, with the interpreter's message. While
    /// linking, the message is exactly the name of the import that the host
    /// rejected; while invoking, the export was missing or not a function.
    Function(String),
    /// Guest code trapped.
    Trap,
    /// Any other failure.
    Other,
}

/// Relies on `wasmi::Error`'s variants, moved one for one into
/// `EngineFailure`.
#[verifier::external_body]
pub(crate) fn engine_failure(e: wasmi::Error) -> (r: EngineFailure) {
    match e {
        wasmi::Error::Validation(_) => EngineFailure::Validation,
        wasmi::Error::Instantiation(_) => EngineFailure::Instantiation,
        wasmi::Error::Function(message) => EngineFailure::Function(message),
        wasmi::Error::Trap(_) => EngineFailure::Trap,
        wasmi::Error::Table(_) | wasmi::Error::Memory(_) | wasmi::Error::Global(_) => EngineFailure::Other,
        wasmi::Error::Value(_) | wasmi::Error::Host(_) => EngineFailure::Other,
    }
}

/// Relies on `wasmi::Error::Function`: the error a resolver hands back for an
/// import it rejects, carrying the import's name.
#[verifier::external_body]
fn rejected_import(name: String) -> (r: wasmi::Error) {
    wasmi::Error::Function(name)
}

/// Relies on `wasmi::Signature::params` and `return_type`, each value type
/// moved one for one into `ValType`.
#[verifier::external_body]
fn signature_of(signature: &wasmi::Signature) -> (r: HostSignature) {
    let kind = |t: &wasmi::ValueType| match t {
        wasmi::ValueType::I32 => ValType::I32,
        wasmi::ValueType::I64 => ValType::I64,
        wasmi::ValueType::F32 => ValType::F32,
        wasmi::ValueType::F64 => ValType::F64,
    };
    HostSignature {
        params: signature.params().iter().map(kind).collect(),
        result: signature.return_type().as_ref().map(kind),
    }
}

/// Relies on `wasmi::FuncInstance::alloc_host`: a host function handle that
/// the interpreter calls back through `Externals::invoke_index` with `index`.
#[verifier::external_body]
fn alloc_host(signature: &HostSignature, index: usize) -> (r: wasmi::FuncRef) {
    let kind = |t: &ValType| match t {
        ValType::I32 => wasmi::ValueType::I32,
        ValType::I64 => wasmi::ValueType::I64,
        ValType::F32 => wasmi::ValueType::F32,
        ValType::F64 => wasmi::ValueType::F64,
    };
    let params: Vec<wasmi::ValueType> = signature.params.iter().map(kind).collect();
    let result = signature.result.as_ref().map(kind);
    wasmi::FuncInstance::alloc_host(wasmi::Signature::new(params, result), index)
}

/// Resolves a guest module's imports against the host function table.
pub struct HostImports;

impl wasmi::ImportResolver for HostImports {
    fn resolve_func(
        &self,
        module_name: &str,
        field_name: &str,
        signature: &wasmi::Signature,
    ) -> Result<wasmi::FuncRef, wasmi::Error> {
        let declared = signature_of(signature);
        match bind_import(module_name, field_name, &declared) {
            Ok(f) => Ok(alloc_host(&f.signature(), f.index())),
            Err(_) => Err(rejected_import(field_name.to_owned())),
        }
    }

    fn resolve_global(
        &self,
        _module_name: &str,
        field_name: &str,
        _descriptor: &wasmi::GlobalDescriptor,
    ) -> Result<wasmi::GlobalRef, wasmi::Error> {
        Err(rejected_import(field_name.to_owned()))
    }

    fn resolve_memory(
        &self,
        _module_name: &str,
        field_name: &str,
        _descriptor: &wasmi::MemoryDescriptor,
    ) -> Result<wasmi::MemoryRef, wasmi::Error> {
        Err(rejected_import(field_name.to_owned()))
    }

    fn resolve_table(
        &self,
        _module_name: &str,
        field_name: &str,
        _descriptor: &wasmi::TableDescriptor,
    ) -> Result<wasmi::TableRef, wasmi::Error> {
        Err(rejected_import(field_name.to_owned()))
    }
}

/// Relies on `RuntimeArgs`'s `AsRef<[RuntimeValue]>`: the number of
/// arguments of a host call.
#[verifier::external_body]
fn arg_count(args: &wasmi::RuntimeArgs) -> (r: usize) {
    args.as_ref().len()
}

/// Relies on `RuntimeArgs::nth_checked`: the argument at `n` where it is an
/// `i32`, else `None`.
#[verifier::external_body]
fn arg_i32(args: &wasmi::RuntimeArgs, n: usize) -> (r: Option<i32>) {
    args.nth_checked::<i32>(n).ok()
}

/// Relies on `From<i32> for RuntimeValue`.
#[verifier::external_body]
fn i32_value(v: i32) -> (r: wasmi::RuntimeValue) {
    wasmi::RuntimeValue::from(v)
}

/// Relies on `wasmi::Trap::new`: a trap that unwinds the guest. The failure
/// it stands for is kept in the context.
#[verifier::external_body]
fn host_fault_trap() -> (r: wasmi::Trap) {
    wasmi::Trap::new(wasmi::TrapKind::Unreachable)
}

/// Reads the `i32` arguments of a host call; `None` where one is missing or
/// of another type.
fn read_args(args: &wasmi::RuntimeArgs) -> (r: Option<Vec<i32>>) {
    let n = arg_count(args);
    let mut values: Vec<i32> = Vec::new();
    let mut i: usize = 0;
    while i < n
        invariant
            i <= n,
            values@.len() == i,
        decreases n - i,
    {
        match arg_i32(args, i) {
            Some(v) => values.push(v),
            None => return None,
        }
        i = i + 1;
    }
    Some(values)
}

impl wasmi::Externals for ExecutionContext {
    fn invoke_index(&mut self, index: usize, args: wasmi::RuntimeArgs) -> Result<
        Option<wasmi::RuntimeValue>,
        wasmi::Trap,
    > {
        let outcome = match read_args(&args) {
            Some(values) => self.host_call(index, &values),
            None => Err(RibosomeError::HostCallArgumentMismatch { index }),
        };
        match outcome {
            Ok(Some(v)) => Ok(Some(i32_value(v))),
            Ok(None) => Ok(None),
            Err(e) => {
                self.record_fault(e);
                Err(host_fault_trap())
            },
        }
    }
}

} // verus!
