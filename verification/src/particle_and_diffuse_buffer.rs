//! The wrapper of the engine's buffers of particles and diffuse particles.

use crate::class::{Class, ClassId, ConstPtr, EngineType, MutPtr};
use crate::owner::Owner;
use crate::particle_buffer::PxParticleBuffer;
use vstd::prelude::*;

verus! {

/// A buffer of particles and diffuse particles of the engine. It is a
/// particle buffer too.
pub struct PxParticleAndDiffuseBuffer {
    /// The address of the wrapped engine object.
    obj: usize,
}

impl EngineType for PxParticleAndDiffuseBuffer {
    open spec fn class() -> ClassId {
        ClassId::PxParticleAndDiffuseBuffer
    }

    closed spec fn addr(&self) -> usize {
        self.obj
    }

    fn class_id() -> (class: ClassId) {
        ClassId::PxParticleAndDiffuseBuffer
    }
}

impl Class<PxParticleAndDiffuseBuffer> for PxParticleAndDiffuseBuffer {
    proof fn declared() {
    }

    fn as_ptr(&self) -> (p: ConstPtr<PxParticleAndDiffuseBuffer>) {
        ConstPtr::new(self.obj)
    }

    fn as_mut_ptr(&mut self) -> (p: MutPtr<PxParticleAndDiffuseBuffer>) {
        MutPtr::new(self.obj)
    }
}

impl Class<PxParticleBuffer> for PxParticleAndDiffuseBuffer {
    proof fn declared() {
    }

    fn as_ptr(&self) -> (p: ConstPtr<PxParticleBuffer>) {
        ConstPtr::new(self.obj)
    }

    fn as_mut_ptr(&mut self) -> (p: MutPtr<PxParticleBuffer>) {
        MutPtr::new(self.obj)
    }
}

impl PxParticleAndDiffuseBuffer {
    /// Wraps the buffer behind `particle_buffer` without owning it.
    pub fn new(particle_buffer: MutPtr<PxParticleAndDiffuseBuffer>) -> (wrapper:
        PxParticleAndDiffuseBuffer)
        ensures
            wrapper.addr() == particle_buffer.addr(),
    {
        Self { obj: particle_buffer.address() }
    }

    /// Takes ownership of the buffer that a factory of the engine returned,
    /// unless the factory returned null.
    pub fn from_raw(ptr: MutPtr<PxParticleAndDiffuseBuffer>) -> (owner: Option<Owner<Self>>)
        ensures
            owner is None <==> ptr.addr() == 0,
            owner is Some ==> owner->Some_0.addr() == ptr.addr(),
    {
        Owner::from_raw(ptr)
    }
}

} // verus!
