//! The wrapper of the engine's CUDA context manager.

use crate::class::{ClassId, EngineType, MutPtr};
use crate::owner::Owner;
use vstd::prelude::*;

verus! {

/// The CUDA context manager of the engine. The table declares no capability
/// for it, so it can be borrowed as nothing else.
pub struct PxCudaContextManager {
    /// The address of the wrapped engine object.
    obj: usize,
}

impl EngineType for PxCudaContextManager {
    open spec fn class() -> ClassId {
        ClassId::PxCudaContextManager
    }

    closed spec fn addr(&self) -> usize {
        self.obj
    }

    fn class_id() -> (class: ClassId) {
        ClassId::PxCudaContextManager
    }
}

impl PxCudaContextManager {
    /// Wraps the context manager behind `context_manager` without owning it.
    pub fn new(context_manager: MutPtr<PxCudaContextManager>) -> (wrapper: PxCudaContextManager)
        ensures
            wrapper.addr() == context_manager.addr(),
    {
        Self { obj: context_manager.address() }
    }

    /// Takes ownership of the context manager that a factory of the engine
    /// returned, unless the factory returned null.
    pub fn from_raw(ptr: MutPtr<PxCudaContextManager>) -> (owner: Option<Owner<Self>>)
        ensures
            owner is None <==> ptr.addr() == 0,
            owner is Some ==> owner->Some_0.addr() == ptr.addr(),
    {
        Owner::from_raw(ptr)
    }
}

} // verus!
