//! The vtable descriptor record, the capability contract, and the traits the
//! pointer and reference kinds satisfy.

use vstd::prelude::*;

use crate::ptr::{StableNonNull, StablePtr};
use crate::refs::{StableMut, StableRef};
use crate::runtime::{destructor_calls, Invocation, Runtime};

verus! {

/// A vtable descriptor for one concrete type's implementation of a capability.
///
/// Function pointers of the native representation are modeled as the machine
/// words they occupy: a slot value is the address of the function it names,
/// and the null address `0` stands for "no function".  A descriptor is
/// immutable after creation and shared by every instance of the same concrete
/// type; it is never owned by a pointer, only referenced through its address.
pub struct VTable {
    /// The size in bytes of the described concrete type.
    pub size: usize,
    /// The alignment in bytes of the described concrete type.
    pub align: usize,
    /// Address of the destructor function, if the type has one.
    pub drop_in_place: Option<usize>,
    /// Address of the deallocator function; mandatory.
    pub dealloc: usize,
    /// Method slots, one per capability operation, in declaration order.
    pub vfns: Vec<usize>,
}

/// The descriptor record as a mathematical value: the same fields, with the
/// method-slot table read as a sequence.
#[verifier::ext_equal]
pub struct VTableView {
    /// The size in bytes of the described concrete type.
    pub size: usize,
    /// The alignment in bytes of the described concrete type.
    pub align: usize,
    /// Address of the destructor function, if the type has one.
    pub drop_in_place: Option<usize>,
    /// Address of the deallocator function; mandatory.
    pub dealloc: usize,
    /// Method slots, one per capability operation, in declaration order.
    pub vfns: Seq<usize>,
}

impl View for VTable {
    type V = VTableView;

    open spec fn view(&self) -> VTableView {
        VTableView {
            size: self.size,
            align: self.align,
            drop_in_place: self.drop_in_place,
            dealloc: self.dealloc,
            vfns: self.vfns@,
        }
    }
}

/// A descriptor is populated for a capability with `slots` operations when
/// every mandatory function address is non-null and the method-slot table has
/// exactly one non-null entry per operation.  There is no notion of a
/// partially implemented capability.
pub open spec fn vtable_populated(vt: VTable, slots: nat) -> bool {
    &&& vt.dealloc != 0
    &&& (vt.drop_in_place matches Some(f) ==> f != 0)
    &&& vt.vfns@.len() == slots
    &&& forall|i: int| 0 <= i < vt.vfns@.len() ==> vt.vfns@[i] != 0
}

/// The capability contract for one concrete type: the descriptor records the
/// type's true size and alignment and is fully populated for the capability.
pub open spec fn descriptor_conforms(vt: VTable, size: usize, align: usize, slots: nat) -> bool {
    &&& vt.size == size
    &&& vt.align == align
    &&& vtable_populated(vt, slots)
}

/// A capability: an abstract set of operations that a concrete type may
/// implement.  Implementing this trait is the type-level association between
/// the capability and its vtable descriptor type; the association itself has
/// no runtime behavior.
pub trait StableVTableTrait: Sized {
    /// The number of operations the capability declares, and so the length
    /// every conforming method-slot table must have.
    spec fn slot_count() -> nat;
}

/// A type that stands for a valid vtable descriptor for the capability `C`.
///
/// Every implementor can be read as a plain [`VTable`] record, and every
/// record so read is fully populated for `C`: this models the guarantee that
/// conforming descriptor types are freely interchangeable with the `VTable`
/// layout defined in this module.
pub trait TraitVTable<C: StableVTableTrait>: Sized {
    /// The well-formedness a value must have before it can stand for a
    /// conforming descriptor.
    spec fn wf(&self) -> bool;

    /// The descriptor record this value stands for, field for field.
    spec fn descriptor_view(&self) -> VTableView;

    /// Reads the descriptor as the common `VTable` record: exactly the
    /// record the value stands for, nothing substituted.
    fn as_vtable(&self) -> (vt: VTable)
        requires
            self.wf(),
        ensures
            vt@ == self.descriptor_view(),
            vtable_populated(vt, C::slot_count()),
    ;
}

/// The reference kinds a raw pointer kind dereferences to.
pub trait StablePointerLifetime<C: StableVTableTrait> {
    /// The shared-borrow kind this pointer kind dereferences to.
    type Reference: StableReference<C>;

    /// The exclusive-borrow kind this pointer kind dereferences to.
    type MutReference: StableMutable<C>;
}

/// A raw type-erased pointer kind for the capability `C`.
///
/// Every kind is the same two machine words — a data address and a vtable
/// address — and every operation's contract is stated over those words.
/// Which word pairs a kind admits is the kind's own constraint
/// ([`Self::words_ok`]): the nullable kind admits every pair, the non-null
/// kind only pairs with both words non-null.
pub trait StablePointer<C: StableVTableTrait>: Sized + Copy {
    /// The data word: the address of the pointed-to object.
    spec fn data_word(self) -> usize;

    /// The vtable word: the address of the object's descriptor.
    spec fn vtable_word(self) -> usize;

    /// The word pairs this kind can represent.
    spec fn words_ok(data: usize, vtable: usize) -> bool;

    /// Reads the data word.
    fn data_addr(self) -> (r: usize)
        ensures
            r == self.data_word(),
    ;

    /// Reads the vtable word.
    fn vtable_addr(self) -> (r: usize)
        ensures
            r == self.vtable_word(),
    ;

    /// Builds the kind's value holding exactly the two given words.
    fn from_words(data: usize, vtable: usize) -> (p: Self)
        requires
            Self::words_ok(data, vtable),
        ensures
            p.data_word() == data,
            p.vtable_word() == vtable,
    ;

    /// The size of the pointed-to value, read through the descriptor, never
    /// through the object.
    fn size_of_val(self, rt: &Runtime) -> (r: usize)
        requires
            rt.valid_vtable(self.vtable_word()),
        ensures
            r == rt.vtable_at(self.vtable_word()).size,
    ;

    /// The alignment of the pointed-to value, read through the descriptor.
    fn align_of_val(self, rt: &Runtime) -> (r: usize)
        requires
            rt.valid_vtable(self.vtable_word()),
        ensures
            r == rt.vtable_at(self.vtable_word()).align,
    ;

    /// Runs the destructor operation: dispatches the descriptor's destructor
    /// on the pointed-to object when the descriptor has one, and dispatches
    /// nothing otherwise.
    fn drop_in_place(self, rt: &mut Runtime)
        requires
            old(rt).valid_vtable(self.vtable_word()),
        ensures
            final(rt).vtables@ == old(rt).vtables@,
            final(rt).calls@ == old(rt).calls@ + destructor_calls(
                old(rt).vtable_at(self.vtable_word()),
                self.data_word(),
            ),
    ;

    /// Runs the deallocator: dispatches exactly the descriptor's mandatory
    /// deallocator on the pointed-to object.
    fn dealloc(self, rt: &mut Runtime)
        requires
            old(rt).valid_vtable(self.vtable_word()),
        ensures
            final(rt).vtables@ == old(rt).vtables@,
            final(rt).calls@ == old(rt).calls@.push(
                Invocation {
                    target: old(rt).vtable_at(self.vtable_word()).dealloc,
                    data: self.data_word(),
                },
            ),
    ;

    /// Reinterprets the pointer as the shared-borrow kind: the same two
    /// words, nothing transformed.  The caller furnishes the non-null proof.
    fn deref(self) -> (r: StableRef<C>)
        requires
            self.data_word() != 0,
            self.vtable_word() != 0,
        ensures
            r.data == self.data_word(),
            r.vtable == self.vtable_word(),
    ;

    /// Reinterprets the pointer as the exclusive-borrow kind: the same two
    /// words, nothing transformed.  The caller furnishes the non-null proof
    /// and the uniqueness of the access.
    fn deref_mut(self) -> (r: StableMut<C>)
        requires
            self.data_word() != 0,
            self.vtable_word() != 0,
        ensures
            r.data == self.data_word(),
            r.vtable == self.vtable_word(),
    ;
}

/// A borrow kind: a safe, read-only view of a type-erased pointer, the same
/// two machine words as the raw kinds.
pub trait StableReference<C: StableVTableTrait>: Sized + Copy {
    /// The raw pointer kind this borrow converts back to.
    type Pointer: StablePointer<C>;

    /// The data word: the address of the borrowed object; never null.
    spec fn data_word(self) -> usize;

    /// The vtable word: the address of the object's descriptor; never null.
    spec fn vtable_word(self) -> usize;

    /// The size of the borrowed value, read through the descriptor.
    fn size_of_val(&self, rt: &Runtime) -> (r: usize)
        requires
            rt.valid_vtable(self.vtable_word()),
        ensures
            r == rt.vtable_at(self.vtable_word()).size,
    ;

    /// The alignment of the borrowed value, read through the descriptor.
    fn align_of_val(&self, rt: &Runtime) -> (r: usize)
        requires
            rt.valid_vtable(self.vtable_word()),
        ensures
            r == rt.vtable_at(self.vtable_word()).align,
    ;

    /// Reinterprets the borrow as its raw pointer kind: the same two words.
    fn into_raw(self) -> (p: Self::Pointer)
        ensures
            p.data_word() == self.data_word(),
            p.vtable_word() == self.vtable_word(),
    ;
}

/// An exclusive borrow kind: a [`StableReference`] whose data is not aliased
/// by any other live view for as long as the value exists.
pub trait StableMutable<C: StableVTableTrait>: StableReference<C> {

}

/// The cast contract between a concrete pointer and the type-erased kinds.
///
/// An implementor stands for a native pointer to one concrete type that
/// implements the capability `C`: it knows the object's address and the
/// address of the concrete type's statically known descriptor.  Casting to a
/// stable kind pairs the two addresses; casting back — the down-cast —
/// recovers the object's address from the data word alone, with no tag
/// check: that the pointer really addresses an object of the concrete type
/// is the caller's obligation.
pub trait StablePointerCast<C: StableVTableTrait>: Sized {
    /// The address of the concrete object.
    spec fn addr(self) -> usize;

    /// The address of the concrete type's statically known descriptor.
    spec fn vtable_word(self) -> usize;

    /// Erases the concrete pointer to the nullable raw kind.
    fn to_stable(self) -> (p: StablePtr<C>)
        ensures
            p.data == self.addr(),
            p.vtable == self.vtable_word(),
    ;

    /// Erases the concrete pointer to the non-null raw kind.
    fn to_stable_non_null(self) -> (p: StableNonNull<C>)
        requires
            self.addr() != 0,
            self.vtable_word() != 0,
        ensures
            p.data == self.addr(),
            p.vtable == self.vtable_word(),
    ;

    /// Erases a concrete shared borrow to the shared-borrow kind.
    fn to_stable_ref(self) -> (r: StableRef<C>)
        requires
            self.addr() != 0,
            self.vtable_word() != 0,
        ensures
            r.data == self.addr(),
            r.vtable == self.vtable_word(),
    ;

    /// Erases a concrete exclusive borrow to the exclusive-borrow kind.
    fn to_stable_mut(self) -> (m: StableMut<C>)
        requires
            self.addr() != 0,
            self.vtable_word() != 0,
        ensures
            m.data == self.addr(),
            m.vtable == self.vtable_word(),
    ;

    /// Down-casts the nullable raw kind to the concrete pointer.
    fn from_stable(p: StablePtr<C>) -> (x: Self)
        ensures
            x.addr() == p.data,
            x.vtable_word() == p.vtable,
    ;

    /// Down-casts the shared-borrow kind to the concrete pointer.
    fn from_stable_ref(r: StableRef<C>) -> (x: Self)
        ensures
            x.addr() == r.data,
            x.vtable_word() == r.vtable,
    ;

    /// Down-casts the exclusive-borrow kind to the concrete pointer.
    fn from_stable_mut(m: StableMut<C>) -> (x: Self)
        ensures
            x.addr() == m.data,
            x.vtable_word() == m.vtable,
    ;
}

/// Converts between type-erased pointer kinds: a pure bit reinterpretation,
/// both words carried over unchanged.  The target kind may impose a non-null
/// constraint; meeting it is the caller-furnished precondition.
pub fn into_other<C: StableVTableTrait, P: StablePointer<C>, Q: StablePointer<C>>(p: P) -> (q: Q)
    requires
        Q::words_ok(p.data_word(), p.vtable_word()),
    ensures
        q.data_word() == p.data_word(),
        q.vtable_word() == p.vtable_word(),
{
    Q::from_words(p.data_addr(), p.vtable_addr())
}

} // verus!
