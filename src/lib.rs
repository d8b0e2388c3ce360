//! A host that runs one exported function of a WebAssembly guest module,
//! offering it a fixed table of host functions (`print`, `commit`) and
//! turning each `commit` into a state mutation that the call waits on.

pub mod bridge;
pub mod context;
pub mod engine;
pub mod error;
pub mod host;
pub mod invoker;

pub use bridge::{ActionMessage, Entry, Observer};
pub use context::{ExecutionContext, Runtime};
pub use error::{RibosomeError, Stage};
pub use host::{HostFunction, HostSignature, ValType};
pub use invoker::call;
