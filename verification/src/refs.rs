//! The borrow kinds: the safe, lifetime-style views of a type-erased pointer.
//!
//! Both kinds are the same two machine words as the raw kinds in
//! [`crate::ptr`].  What a native implementation enforces with lifetimes —
//! that the words are non-null and the object and descriptor stay reachable —
//! is modeled here as the kinds' well-formedness, established by every
//! constructor and required where it matters.

use core::marker::PhantomData;
use vstd::prelude::*;

use crate::ptr::StablePtr;
use crate::runtime::Runtime;
use crate::traits::{StableMutable, StableReference, StableVTableTrait};

verus! {

/// The shared-borrow kind: a read-only, type-erased view of an object
/// implementing the capability `C`, layout-identical to the raw kinds.
pub struct StableRef<C: StableVTableTrait> {
    /// The address of the borrowed object; never null in a well-formed value.
    pub data: usize,
    /// The address of the object's descriptor; never null in a well-formed
    /// value.
    pub vtable: usize,
    /// Marks the capability the view erases to; occupies nothing.
    pub phantom: PhantomData<C>,
}

/// The exclusive-borrow kind: a read-write, type-erased view whose data is
/// not aliased by any other live view, layout-identical to the raw kinds.
pub struct StableMut<C: StableVTableTrait> {
    /// The address of the borrowed object; never null in a well-formed value.
    pub data: usize,
    /// The address of the object's descriptor; never null in a well-formed
    /// value.
    pub vtable: usize,
    /// Marks the capability the view erases to; occupies nothing.
    pub phantom: PhantomData<C>,
}

impl<C: StableVTableTrait> Clone for StableRef<C> {
    fn clone(&self) -> (r: Self)
        ensures
            r == *self,
    {
        *self
    }
}

impl<C: StableVTableTrait> Copy for StableRef<C> {

}

impl<C: StableVTableTrait> Clone for StableMut<C> {
    fn clone(&self) -> (r: Self)
        ensures
            r == *self,
    {
        *self
    }
}

impl<C: StableVTableTrait> Copy for StableMut<C> {

}

impl<C: StableVTableTrait> StableRef<C> {
    /// A borrow is well-formed when both of its words are non-null.
    pub open spec fn wf(self) -> bool {
        self.data != 0 && self.vtable != 0
    }

    /// Builds the shared-borrow kind over the two given non-null words.
    pub fn new(data: usize, vtable: usize) -> (r: Self)
        requires
            data != 0,
            vtable != 0,
        ensures
            r.data == data,
            r.vtable == vtable,
    {
        StableRef { data, vtable, phantom: PhantomData }
    }
}

impl<C: StableVTableTrait> StableMut<C> {
    /// A borrow is well-formed when both of its words are non-null.
    pub open spec fn wf(self) -> bool {
        self.data != 0 && self.vtable != 0
    }

    /// Builds the exclusive-borrow kind over the two given non-null words.
    pub fn new(data: usize, vtable: usize) -> (m: Self)
        requires
            data != 0,
            vtable != 0,
        ensures
            m.data == data,
            m.vtable == vtable,
    {
        StableMut { data, vtable, phantom: PhantomData }
    }
}

impl<C: StableVTableTrait> StableReference<C> for StableRef<C> {
    type Pointer = StablePtr<C>;

    open spec fn data_word(self) -> usize {
        self.data
    }

    open spec fn vtable_word(self) -> usize {
        self.vtable
    }

    fn size_of_val(&self, rt: &Runtime) -> (r: usize) {
        rt.vtable(self.vtable).size
    }

    fn align_of_val(&self, rt: &Runtime) -> (r: usize) {
        rt.vtable(self.vtable).align
    }

    fn into_raw(self) -> (p: Self::Pointer) {
        StablePtr { data: self.data, vtable: self.vtable, phantom: PhantomData }
    }
}

impl<C: StableVTableTrait> StableReference<C> for StableMut<C> {
    type Pointer = StablePtr<C>;

    open spec fn data_word(self) -> usize {
        self.data
    }

    open spec fn vtable_word(self) -> usize {
        self.vtable
    }

    fn size_of_val(&self, rt: &Runtime) -> (r: usize) {
        rt.vtable(self.vtable).size
    }

    fn align_of_val(&self, rt: &Runtime) -> (r: usize) {
        rt.vtable(self.vtable).align
    }

    fn into_raw(self) -> (p: Self::Pointer) {
        StablePtr { data: self.data, vtable: self.vtable, phantom: PhantomData }
    }
}

impl<C: StableVTableTrait> StableMutable<C> for StableMut<C> {

}

/// Widening an exclusive borrow to a shared one: a permitted edge of the
/// kind lattice, a pure bit reinterpretation of the same two words.
impl<C: StableVTableTrait> From<StableMut<C>> for StableRef<C> {
    fn from(m: StableMut<C>) -> (r: Self) {
        StableRef { data: m.data, vtable: m.vtable, phantom: PhantomData }
    }
}

impl<C: StableVTableTrait> vstd::std_specs::convert::FromSpecImpl<StableMut<C>> for StableRef<C> {
    open spec fn obeys_from_spec() -> bool {
        true
    }

    open spec fn from_spec(m: StableMut<C>) -> Self {
        StableRef { data: m.data, vtable: m.vtable, phantom: PhantomData }
    }
}

/// What reading an optional shared borrow as the nullable raw kind yields:
/// the absent value is the null pointer, a present borrow contributes its
/// two words unchanged.
pub open spec fn spec_opt_ref_to_ptr<C: StableVTableTrait>(x: Option<StableRef<C>>) -> StablePtr<
    C,
> {
    match x {
        Some(r) => StablePtr { data: r.data, vtable: r.vtable, phantom: PhantomData },
        None => StablePtr { data: 0, vtable: 0, phantom: PhantomData },
    }
}

/// Reinterprets an optional shared borrow as the nullable raw kind.  The
/// absent value is represented in-band as the null data word; a present
/// borrow keeps both words bit for bit.
pub fn reinterpret_opt_ref<C: StableVTableTrait>(x: Option<StableRef<C>>) -> (p: StablePtr<C>)
    ensures
        p == spec_opt_ref_to_ptr(x),
{
    match x {
        Some(r) => StablePtr { data: r.data, vtable: r.vtable, phantom: PhantomData },
        None => StablePtr { data: 0, vtable: 0, phantom: PhantomData },
    }
}

} // verus!
