//! The owning smart pointer: unique ownership of one non-null type-erased
//! pointer, with destruction and deallocation dispatched through the vtable.
//!
//! A native implementation runs the two steps when the owner goes out of
//! scope.  Verified code makes the end of the lifetime an explicit,
//! consuming call: [`Box::release`] takes the owner by value, so the type
//! system makes destroying the same owner twice unrepresentable, and its
//! contract pins the two dispatched calls and their order.

use vstd::prelude::*;

use crate::ptr::StableNonNull;
use crate::refs::{StableMut, StableRef};
use crate::runtime::{destruct_calls, Runtime};
use crate::traits::{StablePointer, StableVTableTrait};

verus! {

/// The owning smart pointer: uniquely owns exactly one non-null type-erased
/// pointer to a heap object implementing the capability `C`.
pub struct Box<C: StableVTableTrait> {
    ptr: StableNonNull<C>,
}

impl<C: StableVTableTrait> View for Box<C> {
    type V = StableNonNull<C>;

    /// The owned non-null pointer.
    closed spec fn view(&self) -> StableNonNull<C> {
        self.ptr
    }
}

impl<C: StableVTableTrait> Box<C> {
    /// Every owner holds a well-formed non-null pointer.
    #[verifier::type_invariant]
    spec fn inv(self) -> bool {
        self.ptr.wf()
    }

    /// Takes ownership of the object behind a well-formed non-null pointer.
    /// Models taking over a native owning pointer after its address was
    /// paired with the concrete type's descriptor.
    pub fn from(p: StableNonNull<C>) -> (b: Self)
        requires
            p.wf(),
        ensures
            b@ == p,
    {
        Box { ptr: p }
    }

    /// Read access to the owned object: the shared-borrow kind over the
    /// owner's two words.
    pub fn deref(&self) -> (r: StableRef<C>)
        ensures
            r.data == self@.data,
            r.vtable == self@.vtable,
    {
        proof {
            use_type_invariant(&*self);
        }
        self.ptr.deref()
    }

    /// Exclusive access to the owned object: the exclusive-borrow kind over
    /// the owner's two words.
    pub fn deref_mut(&mut self) -> (r: StableMut<C>)
        ensures
            final(self)@ == old(self)@,
            r.data == old(self)@.data,
            r.vtable == old(self)@.vtable,
    {
        proof {
            use_type_invariant(&*self);
        }
        self.ptr.deref_mut()
    }

    /// Ends the owner's lifetime: dispatches the descriptor's destructor on
    /// the owned object when the descriptor has one, then the descriptor's
    /// deallocator, in that order, each exactly once.  Consuming the owner
    /// makes any further use, and any second destruction, a type error.
    pub fn release(self, rt: &mut Runtime)
        requires
            old(rt).valid_vtable(self@.vtable),
        ensures
            final(rt).vtables@ == old(rt).vtables@,
            final(rt).calls@ == old(rt).calls@ + destruct_calls(
                old(rt).vtable_at(self@.vtable),
                self@.data,
            ),
    {
        proof {
            use_type_invariant(&self);
        }
        let p = self.ptr;
        p.drop_in_place(rt);
        p.dealloc(rt);
        proof {
            assert(rt.calls@ =~= old(rt).calls@ + destruct_calls(
                old(rt).vtable_at(self@.vtable),
                self@.data,
            ));
        }
    }
}

} // verus!
