//! Type-erased pointers with a stable, explicitly modeled vtable layout.
//!
//! A type-erased pointer is a pair of machine words: the address of an object
//! and the address of a vtable descriptor for the object's concrete type.
//! This crate models that layout contract and proves its rules: the four
//! pointer/reference kinds share one two-word shape, conversions between them
//! preserve both words bit for bit, size and alignment are read through the
//! descriptor, and an owning pointer runs the descriptor's destructor and then
//! its deallocator exactly once each.
//!
//! How long a descriptor must stay valid is settled by policy here: a
//! descriptor is registered once, process-wide, and never mutated or removed
//! ([`runtime::Runtime`]), so it outlives every pointer and borrow that
//! references it.

use vstd::prelude::*;

pub mod boxed;
pub mod laws;
pub mod ptr;
pub mod refs;
pub mod runtime;
pub mod traits;

use crate::ptr::{StableNonNull, StablePtr};
use crate::refs::{StableMut, StableRef};
use crate::traits::{StablePointerCast, StableVTableTrait, TraitVTable, VTable, VTableView};

verus! {

/// A sample capability with a single operation, written out the way a vtable
/// generator would declare it for a one-method trait.  The test suite erases
/// and recovers pointers through it.
pub struct WithStableVTable;

impl StableVTableTrait for WithStableVTable {
    /// The capability declares one operation.
    open spec fn slot_count() -> nat {
        1
    }
}

/// The descriptor type a conforming implementation of [`WithStableVTable`]
/// supplies: size, alignment, optional destructor, mandatory deallocator,
/// and the capability's single method slot, in declaration order.
pub struct WithStableVTableVTable {
    /// The size in bytes of the implementing concrete type.
    pub size: usize,
    /// The alignment in bytes of the implementing concrete type.
    pub align: usize,
    /// Address of the destructor function, if the concrete type has one.
    pub destroy: Option<usize>,
    /// Address of the deallocator function; mandatory.
    pub dealloc: usize,
    /// Address of the implementation of the capability's one operation.
    pub vfn_item: usize,
}

impl TraitVTable<WithStableVTable> for WithStableVTableVTable {
    /// Every mandatory function address is non-null.
    open spec fn wf(&self) -> bool {
        &&& self.dealloc != 0
        &&& (self.destroy matches Some(f) ==> f != 0)
        &&& self.vfn_item != 0
    }

    /// The record carries this descriptor's own five fields.
    open spec fn descriptor_view(&self) -> VTableView {
        VTableView {
            size: self.size,
            align: self.align,
            drop_in_place: self.destroy,
            dealloc: self.dealloc,
            vfns: seq![self.vfn_item],
        }
    }

    fn as_vtable(&self) -> (vt: VTable) {
        let mut vfns: Vec<usize> = Vec::new();
        vfns.push(self.vfn_item);
        let vt = VTable {
            size: self.size,
            align: self.align,
            drop_in_place: self.destroy,
            dealloc: self.dealloc,
            vfns,
        };
        proof {
            assert(vt@ =~= self.descriptor_view());
        }
        vt
    }
}

/// A pointer to a sample concrete implementor of [`WithStableVTable`]: the
/// object's address paired with the address of the concrete type's
/// statically known descriptor.  It stands for the native pointer a vtable
/// generator casts from and back to.
pub struct StableVTableImplPtr {
    /// The address of the concrete object.
    pub object: usize,
    /// The address of the concrete type's registered descriptor.
    pub descriptor: usize,
}

impl StablePointerCast<WithStableVTable> for StableVTableImplPtr {
    open spec fn addr(self) -> usize {
        self.object
    }

    open spec fn vtable_word(self) -> usize {
        self.descriptor
    }

    fn to_stable(self) -> (p: StablePtr<WithStableVTable>) {
        StablePtr::new(self.object, self.descriptor)
    }

    fn to_stable_non_null(self) -> (p: StableNonNull<WithStableVTable>) {
        StableNonNull::new(self.object, self.descriptor)
    }

    fn to_stable_ref(self) -> (r: StableRef<WithStableVTable>) {
        StableRef::new(self.object, self.descriptor)
    }

    fn to_stable_mut(self) -> (m: StableMut<WithStableVTable>) {
        StableMut::new(self.object, self.descriptor)
    }

    fn from_stable(p: StablePtr<WithStableVTable>) -> (x: Self) {
        StableVTableImplPtr { object: p.data, descriptor: p.vtable }
    }

    fn from_stable_ref(r: StableRef<WithStableVTable>) -> (x: Self) {
        StableVTableImplPtr { object: r.data, descriptor: r.vtable }
    }

    fn from_stable_mut(m: StableMut<WithStableVTable>) -> (x: Self) {
        StableVTableImplPtr { object: m.data, descriptor: m.vtable }
    }
}

} // verus!
