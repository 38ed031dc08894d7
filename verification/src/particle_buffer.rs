//! The wrapper of the engine's particle buffers.

use crate::class::{Class, ClassId, ConstPtr, EngineType, MutPtr};
use crate::owner::Owner;
use vstd::prelude::*;

verus! {

/// A particle buffer of the engine.
pub struct PxParticleBuffer {
    /// The address of the wrapped engine object.
    obj: usize,
}

impl EngineType for PxParticleBuffer {
    open spec fn class() -> ClassId {
        ClassId::PxParticleBuffer
    }

    closed spec fn addr(&self) -> usize {
        self.obj
    }

    fn class_id() -> (class: ClassId) {
        ClassId::PxParticleBuffer
    }
}

impl Class<PxParticleBuffer> for PxParticleBuffer {
    proof fn declared() {
    }

    fn as_ptr(&self) -> (p: ConstPtr<PxParticleBuffer>) {
        ConstPtr::new(self.obj)
    }

    fn as_mut_ptr(&mut self) -> (p: MutPtr<PxParticleBuffer>) {
        MutPtr::new(self.obj)
    }
}

impl PxParticleBuffer {
    /// Wraps the buffer behind `particle_buffer` without owning it.
    pub fn new(particle_buffer: MutPtr<PxParticleBuffer>) -> (wrapper: PxParticleBuffer)
        ensures
            wrapper.addr() == particle_buffer.addr(),
    {
        Self { obj: particle_buffer.address() }
    }

    /// Takes ownership of the buffer that a factory of the engine returned,
    /// unless the factory returned null.
    pub fn from_raw(ptr: MutPtr<PxParticleBuffer>) -> (owner: Option<Owner<Self>>)
        ensures
            owner is None <==> ptr.addr() == 0,
            owner is Some ==> owner->Some_0.addr() == ptr.addr(),
    {
        Owner::from_raw(ptr)
    }
}

} // verus!
