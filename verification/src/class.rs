//! The engine's class hierarchy, as a table of declared capabilities.
//!
//! A wrapper may be used wherever one of the base classes of the wrapped engine
//! object is expected. Which bases a class has is written down once, in
//! [`ClassId::declares`]; every borrow of a handle as one of its bases is held
//! to that table by the verifier, so that no call can reinterpret an object as
//! something it is not.

use core::marker::PhantomData;
use vstd::prelude::*;

verus! {

/// The classes of the engine that handles can refer to.
#[derive(Clone, Copy, PartialEq, Eq, Structural, Debug)]
pub enum ClassId {
    PxBase,
    PxActor,
    PxRigidActor,
    PxRigidStatic,
    PxRigidBody,
    PxRigidDynamic,
    PxArticulationLink,
    PxAggregate,
    PxArticulationReducedCoordinate,
    PxArticulationJointReducedCoordinate,
    PxBVH,
    PxConstraint,
    PxConvexMesh,
    PxHeightField,
    PxJoint,
    PxContactJoint,
    PxD6Joint,
    PxDistanceJoint,
    PxFixedJoint,
    PxPrismaticJoint,
    PxRevoluteJoint,
    PxSphericalJoint,
    PxMaterial,
    PxRefCounted,
    PxPruningStructure,
    PxShape,
    PxTriangleMesh,
    PxPBDParticleSystem,
    PxParticleSystem,
    PxPBDMaterial,
    PxParticleMaterial,
    PxParticleBuffer,
    PxParticleAndDiffuseBuffer,
    PxParticleAndDiffuseBufferDesc,
    PxParticleBufferDesc,
    PxFoundation,
    PxPhysics,
    PxScene,
    PxPvd,
    PxPvdSceneClient,
    PxPvdTransport,
    PxCooking,
    PxControllerManager,
    PxController,
    PxCapsuleController,
    PxBoxController,
    PxControllerDesc,
    PxCapsuleControllerDesc,
    PxBoxControllerDesc,
    PxTransform,
    PxQuat,
    PxVec3,
    PxExtendedVec3,
    PxMeshScale,
    PxBounds3,
    PxArticulationCache,
    PxGeometry,
    PxSphereGeometry,
    PxBoxGeometry,
    PxCapsuleGeometry,
    PxHeightFieldGeometry,
    PxTriangleMeshGeometry,
    PxConvexMeshGeometry,
    PxPlaneGeometry,
    PxCudaContextManager,
}

impl ClassId {
    /// The table of capabilities: whether a handle to an object of class
    /// `self` may be borrowed as a handle to `base`.
    ///
    /// Each line must agree with the engine's own base-class chain. A class
    /// that is only ever named as a base (`PxRefCounted`, `PxGeometry`, ...)
    /// declares nothing, not even itself.
    pub open spec fn declares(self, base: ClassId) -> bool {
        match self {
            ClassId::PxRefCounted
            | ClassId::PxParticleMaterial
            | ClassId::PxParticleBufferDesc
            | ClassId::PxGeometry
            | ClassId::PxCudaContextManager => false,
            ClassId::PxBase
            | ClassId::PxParticleBuffer
            | ClassId::PxFoundation
            | ClassId::PxPhysics
            | ClassId::PxScene
            | ClassId::PxPvd
            | ClassId::PxPvdSceneClient
            | ClassId::PxPvdTransport
            | ClassId::PxCooking
            | ClassId::PxControllerManager
            | ClassId::PxController
            | ClassId::PxControllerDesc
            | ClassId::PxTransform
            | ClassId::PxQuat
            | ClassId::PxVec3
            | ClassId::PxExtendedVec3
            | ClassId::PxMeshScale
            | ClassId::PxBounds3
            | ClassId::PxArticulationCache => base == self,
            ClassId::PxActor
            | ClassId::PxAggregate
            | ClassId::PxArticulationReducedCoordinate
            | ClassId::PxArticulationJointReducedCoordinate
            | ClassId::PxBVH
            | ClassId::PxConstraint
            | ClassId::PxConvexMesh
            | ClassId::PxHeightField
            | ClassId::PxJoint
            | ClassId::PxPruningStructure
            | ClassId::PxTriangleMesh => base == self || base == ClassId::PxBase,
            ClassId::PxRigidActor => base == self || base == ClassId::PxActor || base
                == ClassId::PxBase,
            ClassId::PxRigidStatic | ClassId::PxRigidBody => base == self || base
                == ClassId::PxRigidActor || base == ClassId::PxActor || base == ClassId::PxBase,
            ClassId::PxRigidDynamic | ClassId::PxArticulationLink => base == self || base
                == ClassId::PxRigidBody || base == ClassId::PxRigidActor || base
                == ClassId::PxActor || base == ClassId::PxBase,
            ClassId::PxContactJoint
            | ClassId::PxD6Joint
            | ClassId::PxDistanceJoint
            | ClassId::PxFixedJoint
            | ClassId::PxPrismaticJoint
            | ClassId::PxRevoluteJoint
            | ClassId::PxSphericalJoint => base == self || base == ClassId::PxJoint || base
                == ClassId::PxBase,
            ClassId::PxMaterial | ClassId::PxShape => base == self || base
                == ClassId::PxRefCounted || base == ClassId::PxBase,
            ClassId::PxPBDParticleSystem => base == self || base == ClassId::PxParticleSystem
                || base == ClassId::PxActor,
            ClassId::PxParticleSystem => base == self || base == ClassId::PxActor,
            ClassId::PxPBDMaterial => base == self || base == ClassId::PxParticleMaterial,
            ClassId::PxParticleAndDiffuseBuffer => base == self || base
                == ClassId::PxParticleBuffer,
            ClassId::PxParticleAndDiffuseBufferDesc => base == self || base
                == ClassId::PxParticleBufferDesc,
            ClassId::PxCapsuleController | ClassId::PxBoxController => base == self || base
                == ClassId::PxController,
            ClassId::PxCapsuleControllerDesc | ClassId::PxBoxControllerDesc => base == self
                || base == ClassId::PxControllerDesc,
            ClassId::PxSphereGeometry
            | ClassId::PxBoxGeometry
            | ClassId::PxCapsuleGeometry
            | ClassId::PxHeightFieldGeometry
            | ClassId::PxTriangleMeshGeometry
            | ClassId::PxConvexMeshGeometry
            | ClassId::PxPlaneGeometry => base == self || base == ClassId::PxGeometry,
        }
    }

    /// The byte offset of the `base` part inside an object of class `self`.
    ///
    /// Every declared base is the first, non-virtual base of its class, so the
    /// base part always begins where the object begins.
    pub open spec fn base_offset(self, base: ClassId) -> nat {
        0
    }

    /// The address of the `base` view of an object of class `self` at `addr`.
    pub open spec fn view_addr(self, base: ClassId, addr: usize) -> int {
        addr + self.base_offset(base)
    }

    /// A chain of declared borrows: at least one step, each step from a class
    /// to one of the bases it declares.
    pub open spec fn is_chain(chain: Seq<ClassId>) -> bool {
        &&& chain.len() >= 2
        &&& forall|i: int|
            #![trigger chain[i]]
            0 <= i < chain.len() - 1 ==> chain[i].declares(chain[i + 1])
    }

    /// Whether `base` can be had from `self`, directly or by borrowing one
    /// declared base from another.
    pub open spec fn supports(self, base: ClassId) -> bool {
        exists|chain: Seq<ClassId>|
            Self::is_chain(chain) && chain.first() == self && chain.last() == base
    }

    /// The address that following `chain` from an object at `addr` ends at.
    pub open spec fn chain_addr(chain: Seq<ClassId>, addr: usize) -> int
        decreases chain.len(),
    {
        if chain.len() < 2 {
            addr as int
        } else {
            Self::chain_addr(chain.drop_last(), addr) + chain[chain.len() - 2].base_offset(
                chain.last(),
            )
        }
    }

    /// Looks `base` up among the capabilities declared for `self`.
    pub fn is_declared(self, base: ClassId) -> (b: bool)
        ensures
            b == self.declares(base),
    {
        match self {
            ClassId::PxRefCounted
            | ClassId::PxParticleMaterial
            | ClassId::PxParticleBufferDesc
            | ClassId::PxGeometry
            | ClassId::PxCudaContextManager => false,
            ClassId::PxBase
            | ClassId::PxParticleBuffer
            | ClassId::PxFoundation
            | ClassId::PxPhysics
            | ClassId::PxScene
            | ClassId::PxPvd
            | ClassId::PxPvdSceneClient
            | ClassId::PxPvdTransport
            | ClassId::PxCooking
            | ClassId::PxControllerManager
            | ClassId::PxController
            | ClassId::PxControllerDesc
            | ClassId::PxTransform
            | ClassId::PxQuat
            | ClassId::PxVec3
            | ClassId::PxExtendedVec3
            | ClassId::PxMeshScale
            | ClassId::PxBounds3
            | ClassId::PxArticulationCache => base == self,
            ClassId::PxActor
            | ClassId::PxAggregate
            | ClassId::PxArticulationReducedCoordinate
            | ClassId::PxArticulationJointReducedCoordinate
            | ClassId::PxBVH
            | ClassId::PxConstraint
            | ClassId::PxConvexMesh
            | ClassId::PxHeightField
            | ClassId::PxJoint
            | ClassId::PxPruningStructure
            | ClassId::PxTriangleMesh => base == self || base == ClassId::PxBase,
            ClassId::PxRigidActor => base == self || base == ClassId::PxActor || base
                == ClassId::PxBase,
            ClassId::PxRigidStatic | ClassId::PxRigidBody => base == self || base
                == ClassId::PxRigidActor || base == ClassId::PxActor || base == ClassId::PxBase,
            ClassId::PxRigidDynamic | ClassId::PxArticulationLink => base == self || base
                == ClassId::PxRigidBody || base == ClassId::PxRigidActor || base
                == ClassId::PxActor || base == ClassId::PxBase,
            ClassId::PxContactJoint
            | ClassId::PxD6Joint
            | ClassId::PxDistanceJoint
            | ClassId::PxFixedJoint
            | ClassId::PxPrismaticJoint
            | ClassId::PxRevoluteJoint
            | ClassId::PxSphericalJoint => base == self || base == ClassId::PxJoint || base
                == ClassId::PxBase,
            ClassId::PxMaterial | ClassId::PxShape => base == self || base
                == ClassId::PxRefCounted || base == ClassId::PxBase,
            ClassId::PxPBDParticleSystem => base == self || base == ClassId::PxParticleSystem
                || base == ClassId::PxActor,
            ClassId::PxParticleSystem => base == self || base == ClassId::PxActor,
            ClassId::PxPBDMaterial => base == self || base == ClassId::PxParticleMaterial,
            ClassId::PxParticleAndDiffuseBuffer => base == self || base
                == ClassId::PxParticleBuffer,
            ClassId::PxParticleAndDiffuseBufferDesc => base == self || base
                == ClassId::PxParticleBufferDesc,
            ClassId::PxCapsuleController | ClassId::PxBoxController => base == self || base
                == ClassId::PxController,
            ClassId::PxCapsuleControllerDesc | ClassId::PxBoxControllerDesc => base == self
                || base == ClassId::PxControllerDesc,
            ClassId::PxSphereGeometry
            | ClassId::PxBoxGeometry
            | ClassId::PxCapsuleGeometry
            | ClassId::PxHeightFieldGeometry
            | ClassId::PxTriangleMeshGeometry
            | ClassId::PxConvexMeshGeometry
            | ClassId::PxPlaneGeometry => base == self || base == ClassId::PxGeometry,
        }
    }

    /// The table entry for `base`: its byte offset inside an object of class
    /// `self`, or nothing where `self` does not declare `base`.
    pub fn offset_to(self, base: ClassId) -> (offset: Option<usize>)
        ensures
            offset == if self.declares(base) {
                Some(self.base_offset(base) as usize)
            } else {
                None
            },
    {
        if self.is_declared(base) {
            Some(0)
        } else {
            None
        }
    }
}

/// A raw handle: the address of an object that the engine manages, and the
/// class under which the holder knows it. It owns nothing and releases
/// nothing; its identity is the address.
#[derive(Clone, Copy, PartialEq, Eq, Structural, Debug)]
pub struct Handle {
    class: ClassId,
    addr: usize,
}

impl Handle {
    pub closed spec fn class(self) -> ClassId {
        self.class
    }

    pub closed spec fn addr(self) -> usize {
        self.addr
    }

    /// A handle to the object of class `class` at `addr`.
    pub fn new(class: ClassId, addr: usize) -> (h: Handle)
        ensures
            h.class() == class,
            h.addr() == addr,
    {
        Handle { class, addr }
    }

    /// The class under which the object is known.
    pub fn class_id(&self) -> (class: ClassId)
        ensures
            class == self.class(),
    {
        self.class
    }

    /// The address of the object.
    pub fn address(&self) -> (addr: usize)
        ensures
            addr == self.addr(),
    {
        self.addr
    }

    /// Whether the handle refers to no object.
    pub fn is_null(&self) -> (b: bool)
        ensures
            b == (self.addr() == 0),
    {
        self.addr == 0
    }

    /// Borrows the object as its declared base `base`: the same object, seen
    /// at the offset that the table gives for that base.
    pub fn borrow_as(&self, base: ClassId) -> (view: Handle)
        requires
            self.class().declares(base),
        ensures
            view.class() == base,
            view.addr() == self.class().view_addr(base, self.addr()),
    {
        Handle { class: base, addr: self.addr }
    }

    /// Borrows the object as `base` where the table allows it, and refuses
    /// where it does not.
    pub fn try_borrow_as(&self, base: ClassId) -> (view: Option<Handle>)
        ensures
            self.class().declares(base) ==> view is Some && view->Some_0.class() == base
                && view->Some_0.addr() == self.class().view_addr(base, self.addr()),
            !self.class().declares(base) ==> view is None,
    {
        if self.class.is_declared(base) {
            Some(self.borrow_as(base))
        } else {
            None
        }
    }

    /// Borrows along `path`, one class after the other, starting from the
    /// class of the handle. Succeeds exactly where every step is declared.
    pub fn borrow_through(&self, path: &[ClassId]) -> (view: Option<Handle>)
        ensures
            ({
                let chain = seq![self.class()] + path@;
                if path@.len() > 0 && ClassId::is_chain(chain) {
                    &&& view is Some
                    &&& view->Some_0.class() == path@.last()
                    &&& view->Some_0.addr() == ClassId::chain_addr(chain, self.addr())
                } else {
                    view is None
                }
            }),
    {
        if path.len() == 0 {
            return None;
        }
        let ghost chain = seq![self.class()] + path@;
        let mut current = *self;
        let mut i: usize = 0;
        while i < path.len()
            invariant
                0 <= i <= path.len(),
                chain == seq![self.class()] + path@,
                current.class() == chain[i as int],
                current.addr() == ClassId::chain_addr(chain.take(i + 1), self.addr()),
                forall|j: int| #![trigger chain[j]] 0 <= j < i ==> chain[j].declares(chain[j + 1]),
            decreases path.len() - i,
        {
            let next = path[i];
            assert(chain[i + 1] == next);
            if !current.class.is_declared(next) {
                assert(!chain[i as int].declares(chain[i + 1]));
                return None;
            }
            proof {
                let longer = chain.take(i + 2);
                assert(longer.drop_last() =~= chain.take(i + 1));
                assert(longer.last() == next);
                assert(longer[longer.len() - 2] == chain[i as int]);
            }
            current = current.borrow_as(next);
            i = i + 1;
        }
        assert(chain.take(i + 1) =~= chain);
        Some(current)
    }
}

/// A type that stands for one class of the engine: a value of it refers to
/// one object of that class.
pub trait EngineType {
    /// The engine class that the type stands for.
    spec fn class() -> ClassId;

    /// The address of the engine object that the value refers to.
    spec fn addr(&self) -> usize;

    /// The engine class that the type stands for.
    fn class_id() -> (class: ClassId)
        ensures
            class == Self::class(),
    ;
}

/// A read-only view of the engine object at an address, typed as `S`. It
/// carries no release obligation and must not outlive what it was borrowed
/// from.
pub struct ConstPtr<S> {
    addr: usize,
    class: PhantomData<S>,
}

/// A mutable view of the engine object at an address, typed as `S`. It
/// carries no release obligation and must not outlive what it was borrowed
/// from.
pub struct MutPtr<S> {
    addr: usize,
    class: PhantomData<S>,
}

impl<S> ConstPtr<S> {
    pub closed spec fn addr(&self) -> usize {
        self.addr
    }

    /// The view of the object at `addr`.
    pub fn new(addr: usize) -> (p: Self)
        ensures
            p.addr() == addr,
    {
        ConstPtr { addr, class: PhantomData }
    }

    /// The view of no object.
    pub fn null() -> (p: Self)
        ensures
            p.addr() == 0,
    {
        ConstPtr { addr: 0, class: PhantomData }
    }

    /// The address that the view points to.
    pub fn address(&self) -> (addr: usize)
        ensures
            addr == self.addr(),
    {
        self.addr
    }

    /// Whether the view points to no object.
    pub fn is_null(&self) -> (b: bool)
        ensures
            b == (self.addr() == 0),
    {
        self.addr == 0
    }
}

impl<S: EngineType> ConstPtr<S> {
    /// The same view without its static type.
    pub fn handle(&self) -> (h: Handle)
        ensures
            h.class() == S::class(),
            h.addr() == self.addr(),
    {
        Handle::new(S::class_id(), self.addr)
    }

    /// Borrows the viewed object as its base `B`.
    pub fn upcast<B: EngineType>(&self) -> (p: ConstPtr<B>) where S: Class<B>
        ensures
            S::class().declares(B::class()),
            p.addr() == S::class().view_addr(B::class(), self.addr()),
    {
        proof {
            S::declared();
        }
        ConstPtr { addr: self.addr, class: PhantomData }
    }
}

impl<S> MutPtr<S> {
    pub closed spec fn addr(&self) -> usize {
        self.addr
    }

    /// The view of the object at `addr`.
    pub fn new(addr: usize) -> (p: Self)
        ensures
            p.addr() == addr,
    {
        MutPtr { addr, class: PhantomData }
    }

    /// The view of no object.
    pub fn null() -> (p: Self)
        ensures
            p.addr() == 0,
    {
        MutPtr { addr: 0, class: PhantomData }
    }

    /// The address that the view points to.
    pub fn address(&self) -> (addr: usize)
        ensures
            addr == self.addr(),
    {
        self.addr
    }

    /// Whether the view points to no object.
    pub fn is_null(&self) -> (b: bool)
        ensures
            b == (self.addr() == 0),
    {
        self.addr == 0
    }

    /// The same view, read-only.
    pub fn as_const(&self) -> (p: ConstPtr<S>)
        ensures
            p.addr() == self.addr(),
    {
        ConstPtr::new(self.addr)
    }
}

impl<S: EngineType> MutPtr<S> {
    /// The same view without its static type.
    pub fn handle(&self) -> (h: Handle)
        ensures
            h.class() == S::class(),
            h.addr() == self.addr(),
    {
        Handle::new(S::class_id(), self.addr)
    }

    /// Borrows the viewed object as its base `B`.
    pub fn upcast<B: EngineType>(&self) -> (p: MutPtr<B>) where S: Class<B>
        ensures
            S::class().declares(B::class()),
            p.addr() == S::class().view_addr(B::class(), self.addr()),
    {
        proof {
            S::declared();
        }
        MutPtr { addr: self.addr, class: PhantomData }
    }
}

/// `T: Class<S>` says that a `T` may be borrowed as an `S`.
///
/// Whoever implements it for a pair of types has to prove, in
/// [`Class::declared`], that the table declares the class of `S` as a base of
/// the class of `T`. An implementation for a pair that the table does not hold
/// is rejected by the verifier.
pub trait Class<S: EngineType>: EngineType {
    /// The table declares the class of `S` as a base of the class of `Self`.
    proof fn declared()
        ensures
            Self::class().declares(S::class()),
    ;

    /// A read-only view of the wrapped object as its base `S`: the address of
    /// the object plus the offset that the table gives for that base.
    fn as_ptr(&self) -> (p: ConstPtr<S>)
        ensures
            p.addr() == Self::class().view_addr(S::class(), self.addr()),
    ;

    /// A mutable view of the wrapped object as its base `S`: the address of
    /// the object plus the offset that the table gives for that base. The
    /// wrapper itself is left as it was.
    fn as_mut_ptr(&mut self) -> (p: MutPtr<S>)
        ensures
            p.addr() == Self::class().view_addr(S::class(), old(self).addr()),
            final(self).addr() == old(self).addr(),
    ;
}

/// A declared capability is a supported one.
pub proof fn lemma_declared_is_supported(derived: ClassId, base: ClassId)
    requires
        derived.declares(base),
    ensures
        derived.supports(base),
{
    let chain = seq![derived, base];
    assert(ClassId::is_chain(chain));
    assert(chain.first() == derived && chain.last() == base);
}

/// Two chains that meet make one chain.
pub proof fn lemma_chains_compose(first: Seq<ClassId>, second: Seq<ClassId>)
    requires
        ClassId::is_chain(first),
        ClassId::is_chain(second),
        first.last() == second.first(),
    ensures
        ClassId::is_chain(first + second.drop_first()),
        (first + second.drop_first()).first() == first.first(),
        (first + second.drop_first()).last() == second.last(),
{
    let whole = first + second.drop_first();
    assert forall|i: int| #![trigger whole[i]] 0 <= i < whole.len() - 1 implies whole[i].declares(
        whole[i + 1],
    ) by {
        if i < first.len() - 1 {
            assert(whole[i] == first[i]);
            assert(whole[i + 1] == first[i + 1]);
        } else {
            let k = i - (first.len() - 1);
            assert(whole[i] == second[k]);
            assert(whole[i + 1] == second[k + 1]);
        }
    }
}

/// Capabilities are transitive: what a class supports, every class that
/// supports it supports too.
pub proof fn lemma_supports_is_transitive(a: ClassId, b: ClassId, c: ClassId)
    requires
        a.supports(b),
        b.supports(c),
    ensures
        a.supports(c),
{
    let first = choose|chain: Seq<ClassId>|
        ClassId::is_chain(chain) && chain.first() == a && chain.last() == b;
    let second = choose|chain: Seq<ClassId>|
        ClassId::is_chain(chain) && chain.first() == b && chain.last() == c;
    lemma_chains_compose(first, second);
}

/// Where `a` declares `b` and `b` declares `c`, `a` supports `c`: the `c`
/// view can be had by borrowing `b` and then `c`. Where `a` declares `c` as
/// well, the view that is borrowed directly lies at the same address.
pub proof fn lemma_chained_borrow_is_address_identical(
    a: ClassId,
    b: ClassId,
    c: ClassId,
    addr: usize,
)
    requires
        a.declares(b),
        b.declares(c),
    ensures
        a.supports(c),
        ClassId::is_chain(seq![a, b, c]),
        a.declares(c) ==> ClassId::chain_addr(seq![a, b, c], addr) == a.view_addr(c, addr),
{
    lemma_declared_is_supported(a, b);
    lemma_declared_is_supported(b, c);
    lemma_supports_is_transitive(a, b, c);
    lemma_chain_addr_is_fixed(seq![a, b, c], addr);
}

/// All chains of borrows from one class to another end at one address.
pub proof fn lemma_chains_end_at_one_address(
    first: Seq<ClassId>,
    second: Seq<ClassId>,
    addr: usize,
)
    requires
        ClassId::is_chain(first),
        ClassId::is_chain(second),
        first.first() == second.first(),
        first.last() == second.last(),
    ensures
        ClassId::chain_addr(first, addr) == ClassId::chain_addr(second, addr),
{
    lemma_chain_addr_is_fixed(first, addr);
    lemma_chain_addr_is_fixed(second, addr);
}

/// Following a chain of borrows never moves away from the object: every
/// base along it begins where the object begins.
pub proof fn lemma_chain_addr_is_fixed(chain: Seq<ClassId>, addr: usize)
    ensures
        ClassId::chain_addr(chain, addr) == addr,
    decreases chain.len(),
{
    if chain.len() >= 2 {
        lemma_chain_addr_is_fixed(chain.drop_last(), addr);
    }
}

} // verus!
