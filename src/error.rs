use vstd::prelude::*;

verus! {

/// Every way a call into a guest module can fail. Each kind belongs to one
/// stage of the call; no outcome is produced once one is returned.
#[derive(Debug, Clone, PartialEq, Eq)]
pub enum RibosomeError {
    /// The bytecode could not be decoded or validated.
    BytecodeInvalid,
    /// The guest imports something the host function table does not offer.
    ImportUnresolved { name: String },
    /// The module was rejected while being linked for another reason.
    InstantiationFailed,
    /// The module exports no linear memory named `memory`.
    MemoryExportMissing,
    /// The parameter block could not be written into guest memory.
    MemoryNotWritable,
    /// The module has no exported function of the requested name.
    ExportNotFound { name: String },
    /// The export returned nothing, or something other than an `i32`.
    ReturnTypeMismatch,
    /// The guest called a host function index that the table does not hold.
    UnknownHostCall { index: usize },
    /// The guest called a host function with the wrong number or kind of arguments.
    HostCallArgumentMismatch { index: usize },
    /// Guest code trapped while running.
    GuestTrapped,
    /// The state store's channel is gone, so a commit could not be delivered.
    DispatchChannelClosed,
}

/// The stage of a call at which a failure arises.
#[derive(Debug, Clone, Copy, PartialEq, Eq, Structural)]
pub enum Stage {
    Load,
    Instantiate,
    PrimeMemory,
    Execute,
}

impl Stage {
    /// Whether the stage comes before any guest instruction runs.
    pub open spec fn spec_before_guest(self) -> bool {
        !(self is Execute)
    }
}

impl RibosomeError {
    pub open spec fn spec_stage(&self) -> Stage {
        match self {
            RibosomeError::BytecodeInvalid => Stage::Load,
            RibosomeError::ImportUnresolved { .. } => Stage::Instantiate,
            RibosomeError::InstantiationFailed => Stage::Instantiate,
            RibosomeError::MemoryExportMissing => Stage::PrimeMemory,
            RibosomeError::MemoryNotWritable => Stage::PrimeMemory,
            _ => Stage::Execute,
        }
    }

    /// The stage at which this failure arises.
    pub fn stage(&self) -> (r: Stage)
        ensures
            r == self.spec_stage(),
    {
        match self {
            RibosomeError::BytecodeInvalid => Stage::Load,
            RibosomeError::ImportUnresolved { .. } => Stage::Instantiate,
            RibosomeError::InstantiationFailed => Stage::Instantiate,
            RibosomeError::MemoryExportMissing => Stage::PrimeMemory,
            RibosomeError::MemoryNotWritable => Stage::PrimeMemory,
            _ => Stage::Execute,
        }
    }

    /// Whether the failure arises before any guest instruction runs.
    pub fn before_guest(&self) -> (r: bool)
        ensures
            r == self.spec_stage().spec_before_guest(),
    {
        !matches!(self.stage(), Stage::Execute)
    }
}

} // verus!
