use physx::class::{Class, ClassId, ConstPtr, EngineType, Handle, MutPtr};
use physx::cuda_context_manager::PxCudaContextManager;
use physx::owner::{Event, Lifecycle, Misuse, Owner};
use physx::particle_and_diffuse_buffer::PxParticleAndDiffuseBuffer;
use physx::particle_buffer::PxParticleBuffer;

#[test]
fn owner_yields_base_view_at_same_address() {
    let mut owner = PxParticleAndDiffuseBuffer::from_raw(MutPtr::new(0x1000)).unwrap();
    let base: ConstPtr<PxParticleBuffer> = owner.as_ptr();
    assert_eq!(base.address(), 0x1000);
    let own: ConstPtr<PxParticleAndDiffuseBuffer> = owner.as_ptr();
    assert_eq!(own.address(), 0x1000);
    let base_mut: MutPtr<PxParticleBuffer> = owner.as_mut_ptr();
    assert_eq!(base_mut.address(), 0x1000);
}

#[test]
fn wrapper_yields_view_of_wrapped_object() {
    let mut buffer = PxParticleBuffer::new(MutPtr::new(0x2040));
    let view: ConstPtr<PxParticleBuffer> = buffer.as_ptr();
    assert_eq!(view.address(), 0x2040);
    let view: MutPtr<PxParticleBuffer> = buffer.as_mut_ptr();
    assert_eq!(view.address(), 0x2040);
    let mut both = PxParticleAndDiffuseBuffer::new(MutPtr::new(0x2080));
    let view: ConstPtr<PxParticleBuffer> = both.as_ptr();
    assert_eq!(view.address(), 0x2080);
    let view: MutPtr<PxParticleAndDiffuseBuffer> = both.as_mut_ptr();
    assert_eq!(view.address(), 0x2080);
}

#[test]
fn chained_borrow_equals_direct_borrow() {
    let owner = PxParticleAndDiffuseBuffer::from_raw(MutPtr::new(0x3000)).unwrap();
    let own: ConstPtr<PxParticleAndDiffuseBuffer> = owner.as_ptr();
    let chained: ConstPtr<PxParticleBuffer> = own.upcast();
    let direct: ConstPtr<PxParticleBuffer> = owner.as_ptr();
    assert_eq!(chained.address(), direct.address());
    let again: ConstPtr<PxParticleBuffer> = chained.upcast();
    assert_eq!(again.address(), 0x3000);
}

#[test]
fn typed_views_give_plain_handles() {
    let ptr: MutPtr<PxParticleAndDiffuseBuffer> = MutPtr::new(0x88);
    assert_eq!(ptr.handle(), Handle::new(ClassId::PxParticleAndDiffuseBuffer, 0x88));
    assert_eq!(ptr.as_const().handle(), Handle::new(ClassId::PxParticleAndDiffuseBuffer, 0x88));
    let up: MutPtr<PxParticleBuffer> = ptr.upcast();
    assert_eq!(up.handle(), Handle::new(ClassId::PxParticleBuffer, 0x88));
    assert_eq!(PxParticleBuffer::class_id(), ClassId::PxParticleBuffer);
    assert_eq!(PxCudaContextManager::class_id(), ClassId::PxCudaContextManager);
    assert_eq!(
        <Owner<PxParticleAndDiffuseBuffer> as EngineType>::class_id(),
        ClassId::PxParticleAndDiffuseBuffer
    );
}

#[test]
fn null_handle_gives_no_owner() {
    assert!(PxParticleBuffer::from_raw(MutPtr::null()).is_none());
    assert!(PxParticleAndDiffuseBuffer::from_raw(MutPtr::new(0)).is_none());
    assert!(PxCudaContextManager::from_raw(MutPtr::null()).is_none());
    assert!(Owner::<PxParticleBuffer>::from_raw(MutPtr::null()).is_none());
    assert!(MutPtr::<PxParticleBuffer>::null().is_null());
    assert!(ConstPtr::<PxParticleBuffer>::null().is_null());
    assert!(!ConstPtr::<PxParticleBuffer>::new(8).is_null());
}

#[test]
fn release_names_class_and_object() {
    let owner = PxCudaContextManager::from_raw(MutPtr::new(0x7700)).unwrap();
    let call = owner.release();
    assert_eq!(call.class, ClassId::PxCudaContextManager);
    assert_eq!(call.addr, 0x7700);
    let owner = PxParticleAndDiffuseBuffer::from_raw(MutPtr::new(0x7800)).unwrap();
    let call = owner.release();
    assert_eq!(call.class, ClassId::PxParticleAndDiffuseBuffer);
    assert_eq!(call.addr, 0x7800);
}

#[test]
fn into_ptr_hands_object_back() {
    let owner = PxParticleAndDiffuseBuffer::from_raw(MutPtr::new(0x9000)).unwrap();
    let ptr: MutPtr<PxParticleBuffer> = owner.into_ptr();
    assert_eq!(ptr.address(), 0x9000);
    let wrapper = PxCudaContextManager::new(MutPtr::new(0x9100));
    let _ = wrapper;
}

#[test]
fn table_holds_declared_capabilities() {
    assert!(ClassId::PxRigidDynamic.is_declared(ClassId::PxRigidDynamic));
    assert!(ClassId::PxRigidDynamic.is_declared(ClassId::PxRigidBody));
    assert!(ClassId::PxRigidDynamic.is_declared(ClassId::PxRigidActor));
    assert!(ClassId::PxRigidDynamic.is_declared(ClassId::PxActor));
    assert!(ClassId::PxRigidDynamic.is_declared(ClassId::PxBase));
    assert!(!ClassId::PxRigidDynamic.is_declared(ClassId::PxRigidStatic));
    assert!(ClassId::PxArticulationLink.is_declared(ClassId::PxRigidBody));
    assert!(ClassId::PxRigidStatic.is_declared(ClassId::PxRigidActor));
    assert!(!ClassId::PxRigidStatic.is_declared(ClassId::PxRigidBody));
    assert!(ClassId::PxD6Joint.is_declared(ClassId::PxJoint));
    assert!(ClassId::PxD6Joint.is_declared(ClassId::PxBase));
    assert!(!ClassId::PxJoint.is_declared(ClassId::PxD6Joint));
    assert!(ClassId::PxMaterial.is_declared(ClassId::PxRefCounted));
    assert!(ClassId::PxShape.is_declared(ClassId::PxBase));
    assert!(ClassId::PxSphereGeometry.is_declared(ClassId::PxGeometry));
    assert!(ClassId::PxPlaneGeometry.is_declared(ClassId::PxPlaneGeometry));
    assert!(ClassId::PxBoxController.is_declared(ClassId::PxController));
    assert!(ClassId::PxCapsuleControllerDesc.is_declared(ClassId::PxControllerDesc));
    assert!(ClassId::PxPBDMaterial.is_declared(ClassId::PxParticleMaterial));
    assert!(ClassId::PxParticleAndDiffuseBuffer.is_declared(ClassId::PxParticleBuffer));
    assert!(ClassId::PxParticleAndDiffuseBufferDesc.is_declared(ClassId::PxParticleBufferDesc));
    assert!(!ClassId::PxParticleBuffer.is_declared(ClassId::PxParticleAndDiffuseBuffer));
    assert!(ClassId::PxScene.is_declared(ClassId::PxScene));
    assert!(!ClassId::PxScene.is_declared(ClassId::PxBase));
    assert!(ClassId::PxVec3.is_declared(ClassId::PxVec3));
}

#[test]
fn bases_named_only_as_bases_declare_nothing() {
    for class in [ClassId::PxRefCounted, ClassId::PxParticleMaterial, ClassId::PxParticleBufferDesc, ClassId::PxGeometry, ClassId::PxCudaContextManager] {
        assert!(!class.is_declared(class));
        assert!(!class.is_declared(ClassId::PxBase));
        assert_eq!(class.offset_to(class), None);
    }
}

#[test]
fn declared_bases_lie_at_offset_zero() {
    assert_eq!(ClassId::PxRigidDynamic.offset_to(ClassId::PxBase), Some(0));
    assert_eq!(ClassId::PxRigidDynamic.offset_to(ClassId::PxRigidDynamic), Some(0));
    assert_eq!(ClassId::PxConvexMesh.offset_to(ClassId::PxBase), Some(0));
    assert_eq!(ClassId::PxConvexMesh.offset_to(ClassId::PxActor), None);
    assert_eq!(ClassId::PxPBDParticleSystem.offset_to(ClassId::PxBase), None);
}

#[test]
fn handle_borrows_declared_base() {
    let h = Handle::new(ClassId::PxRigidDynamic, 64);
    assert_eq!(h.class_id(), ClassId::PxRigidDynamic);
    assert_eq!(h.address(), 64);
    assert!(!h.is_null());
    assert!(Handle::new(ClassId::PxBase, 0).is_null());
    assert_eq!(h.borrow_as(ClassId::PxRigidBody), Handle::new(ClassId::PxRigidBody, 64));
    assert_eq!(h.try_borrow_as(ClassId::PxActor), Some(Handle::new(ClassId::PxActor, 64)));
    assert_eq!(h.try_borrow_as(ClassId::PxJoint), None);
    assert_eq!(Handle::new(ClassId::PxRefCounted, 8).try_borrow_as(ClassId::PxRefCounted), None);
}

#[test]
fn handle_borrows_through_chain() {
    let h = Handle::new(ClassId::PxPBDParticleSystem, 0x500);
    assert_eq!(h.try_borrow_as(ClassId::PxBase), None);
    assert_eq!(h.borrow_through(&[ClassId::PxActor, ClassId::PxBase]), Some(Handle::new(ClassId::PxBase, 0x500)));
    assert_eq!(
        h.borrow_through(&[ClassId::PxParticleSystem, ClassId::PxActor, ClassId::PxBase]),
        Some(Handle::new(ClassId::PxBase, 0x500))
    );
    assert_eq!(h.borrow_through(&[ClassId::PxBase]), None);
    assert_eq!(h.borrow_through(&[ClassId::PxActor, ClassId::PxRigidActor]), None);
    assert_eq!(h.borrow_through(&[]), None);
    let direct = Handle::new(ClassId::PxRigidDynamic, 0x40).borrow_as(ClassId::PxActor);
    let chained = Handle::new(ClassId::PxRigidDynamic, 0x40).borrow_as(ClassId::PxRigidBody).borrow_as(ClassId::PxActor);
    assert_eq!(direct, chained);
}

#[test]
fn lifecycle_follows_its_rules() {
    assert_eq!(Lifecycle::Unowned.step(Event::TakeOwnership), Ok(Lifecycle::Owned));
    assert_eq!(Lifecycle::Unowned.step(Event::Borrow), Ok(Lifecycle::Unowned));
    assert_eq!(Lifecycle::Unowned.step(Event::Release), Err(Misuse::ReleaseWithoutOwner));
    assert_eq!(Lifecycle::Owned.step(Event::TakeOwnership), Err(Misuse::DoubleOwnership));
    assert_eq!(Lifecycle::Owned.step(Event::Borrow), Ok(Lifecycle::Owned));
    assert_eq!(Lifecycle::Owned.step(Event::Release), Ok(Lifecycle::Released));
    assert_eq!(Lifecycle::Released.step(Event::TakeOwnership), Err(Misuse::UseAfterRelease));
    assert_eq!(Lifecycle::Released.step(Event::Borrow), Err(Misuse::UseAfterRelease));
    assert_eq!(Lifecycle::Released.step(Event::Release), Err(Misuse::UseAfterRelease));
}

#[test]
fn lifecycle_replays_traces() {
    assert_eq!(Lifecycle::replay(&[]), Ok(Lifecycle::Unowned));
    assert_eq!(Lifecycle::replay(&[Event::Borrow, Event::TakeOwnership, Event::Borrow, Event::Borrow]), Ok(Lifecycle::Owned));
    assert_eq!(
        Lifecycle::replay(&[Event::TakeOwnership, Event::Borrow, Event::Release]),
        Ok(Lifecycle::Released)
    );
    assert_eq!(
        Lifecycle::replay(&[Event::TakeOwnership, Event::Release, Event::Release]),
        Err(Misuse::UseAfterRelease)
    );
    assert_eq!(
        Lifecycle::replay(&[Event::TakeOwnership, Event::Release, Event::Borrow, Event::TakeOwnership]),
        Err(Misuse::UseAfterRelease)
    );
    assert_eq!(
        Lifecycle::replay(&[Event::TakeOwnership, Event::TakeOwnership, Event::Release]),
        Err(Misuse::DoubleOwnership)
    );
    assert_eq!(Lifecycle::replay(&[Event::Borrow, Event::Release]), Err(Misuse::ReleaseWithoutOwner));
}
