//! The raw type-erased pointer kinds: nullable and non-null.
//!
//! A native implementation lays both kinds out as two machine words — the
//! data pointer and the vtable pointer — and converts between them by pure
//! bit reinterpretation.  Here each kind holds the two words as plain
//! addresses, `0` standing for null, and every conversion's contract states
//! that both words are carried over unchanged.

use core::marker::PhantomData;
use vstd::prelude::*;

use crate::refs::{StableMut, StableRef};
use crate::runtime::Runtime;
use crate::traits::{StablePointerLifetime, StablePointer, StableVTableTrait};

verus! {

/// The nullable raw kind: either word may independently be null.  A value is
/// null exactly when its data word is null; the vtable word is not
/// authoritative for the null check and is unconstrained in a null value.
pub struct StablePtr<C: StableVTableTrait> {
    /// The address of the pointed-to object, or null.
    pub data: usize,
    /// The address of the object's descriptor, or null.
    pub vtable: usize,
    /// Marks the capability the pointer erases to; occupies nothing.
    pub phantom: PhantomData<C>,
}

/// The non-null raw kind: both words are non-null in a well-formed value.
pub struct StableNonNull<C: StableVTableTrait> {
    /// The address of the pointed-to object; never null in a well-formed
    /// value.
    pub data: usize,
    /// The address of the object's descriptor; never null in a well-formed
    /// value.
    pub vtable: usize,
    /// Marks the capability the pointer erases to; occupies nothing.
    pub phantom: PhantomData<C>,
}

impl<C: StableVTableTrait> Clone for StablePtr<C> {
    fn clone(&self) -> (r: Self)
        ensures
            r == *self,
    {
        *self
    }
}

impl<C: StableVTableTrait> Copy for StablePtr<C> {

}

impl<C: StableVTableTrait> Clone for StableNonNull<C> {
    fn clone(&self) -> (r: Self)
        ensures
            r == *self,
    {
        *self
    }
}

impl<C: StableVTableTrait> Copy for StableNonNull<C> {

}

impl<C: StableVTableTrait> StablePtr<C> {
    /// Whether the pointer is null: the data word alone decides.
    pub open spec fn spec_is_null(self) -> bool {
        self.data == 0
    }

    /// Builds the nullable kind over any two words.
    pub fn new(data: usize, vtable: usize) -> (p: Self)
        ensures
            p.data == data,
            p.vtable == vtable,
    {
        StablePtr { data, vtable, phantom: PhantomData }
    }

    /// Tests whether the pointer is null.  Only the data word is consulted:
    /// the vtable word of a null pointer carries no meaning.
    pub fn is_null(self) -> (r: bool)
        ensures
            r == self.spec_is_null(),
    {
        self.data == 0
    }
}

impl<C: StableVTableTrait> StableNonNull<C> {
    /// A value is well-formed when both of its words are non-null.
    pub open spec fn wf(self) -> bool {
        self.data != 0 && self.vtable != 0
    }

    /// Builds the non-null kind over the two given non-null words.
    pub fn new(data: usize, vtable: usize) -> (p: Self)
        requires
            data != 0,
            vtable != 0,
        ensures
            p.data == data,
            p.vtable == vtable,
    {
        StableNonNull { data, vtable, phantom: PhantomData }
    }
}

/// Forgetting the non-null constraint: a permitted edge of the kind lattice,
/// a pure bit reinterpretation of the same two words.
impl<C: StableVTableTrait> From<StableNonNull<C>> for StablePtr<C> {
    fn from(p: StableNonNull<C>) -> (r: Self) {
        StablePtr { data: p.data, vtable: p.vtable, phantom: PhantomData }
    }
}

impl<C: StableVTableTrait> vstd::std_specs::convert::FromSpecImpl<StableNonNull<C>> for StablePtr<C> {
    open spec fn obeys_from_spec() -> bool {
        true
    }

    open spec fn from_spec(p: StableNonNull<C>) -> Self {
        StablePtr { data: p.data, vtable: p.vtable, phantom: PhantomData }
    }
}

impl<C: StableVTableTrait> StablePointerLifetime<C> for StablePtr<C> {
    type Reference = StableRef<C>;

    type MutReference = StableMut<C>;
}

impl<C: StableVTableTrait> StablePointerLifetime<C> for StableNonNull<C> {
    type Reference = StableRef<C>;

    type MutReference = StableMut<C>;
}

impl<C: StableVTableTrait> StablePointer<C> for StablePtr<C> {
    open spec fn data_word(self) -> usize {
        self.data
    }

    open spec fn vtable_word(self) -> usize {
        self.vtable
    }

    /// The nullable kind admits every word pair.
    open spec fn words_ok(data: usize, vtable: usize) -> bool {
        true
    }

    fn data_addr(self) -> (r: usize) {
        self.data
    }

    fn vtable_addr(self) -> (r: usize) {
        self.vtable
    }

    fn from_words(data: usize, vtable: usize) -> (p: Self) {
        StablePtr { data, vtable, phantom: PhantomData }
    }

    fn size_of_val(self, rt: &Runtime) -> (r: usize) {
        rt.vtable(self.vtable).size
    }

    fn align_of_val(self, rt: &Runtime) -> (r: usize) {
        rt.vtable(self.vtable).align
    }

    fn drop_in_place(self, rt: &mut Runtime) {
        let destructor = rt.vtable(self.vtable).drop_in_place;
        match destructor {
            Some(f) => {
                rt.invoke(f, self.data);
            },
            None => {
                proof {
                    assert(rt.calls@ =~= rt.calls@ + Seq::<crate::runtime::Invocation>::empty());
                }
            },
        }
    }

    fn dealloc(self, rt: &mut Runtime) {
        let f = rt.vtable(self.vtable).dealloc;
        rt.invoke(f, self.data);
    }

    fn deref(self) -> (r: StableRef<C>) {
        StableRef { data: self.data, vtable: self.vtable, phantom: PhantomData }
    }

    fn deref_mut(self) -> (r: StableMut<C>) {
        StableMut { data: self.data, vtable: self.vtable, phantom: PhantomData }
    }
}

impl<C: StableVTableTrait> StablePointer<C> for StableNonNull<C> {
    open spec fn data_word(self) -> usize {
        self.data
    }

    open spec fn vtable_word(self) -> usize {
        self.vtable
    }

    /// The non-null kind admits only pairs with both words non-null.
    open spec fn words_ok(data: usize, vtable: usize) -> bool {
        data != 0 && vtable != 0
    }

    fn data_addr(self) -> (r: usize) {
        self.data
    }

    fn vtable_addr(self) -> (r: usize) {
        self.vtable
    }

    fn from_words(data: usize, vtable: usize) -> (p: Self) {
        StableNonNull { data, vtable, phantom: PhantomData }
    }

    fn size_of_val(self, rt: &Runtime) -> (r: usize) {
        rt.vtable(self.vtable).size
    }

    fn align_of_val(self, rt: &Runtime) -> (r: usize) {
        rt.vtable(self.vtable).align
    }

    fn drop_in_place(self, rt: &mut Runtime) {
        let destructor = rt.vtable(self.vtable).drop_in_place;
        match destructor {
            Some(f) => {
                rt.invoke(f, self.data);
            },
            None => {
                proof {
                    assert(rt.calls@ =~= rt.calls@ + Seq::<crate::runtime::Invocation>::empty());
                }
            },
        }
    }

    fn dealloc(self, rt: &mut Runtime) {
        let f = rt.vtable(self.vtable).dealloc;
        rt.invoke(f, self.data);
    }

    fn deref(self) -> (r: StableRef<C>) {
        StableRef { data: self.data, vtable: self.vtable, phantom: PhantomData }
    }

    fn deref_mut(self) -> (r: StableMut<C>) {
        StableMut { data: self.data, vtable: self.vtable, phantom: PhantomData }
    }
}

/// What reading an optional non-null pointer as the nullable kind yields:
/// the absent value is the null pointer, a present pointer contributes its
/// two words unchanged.
pub open spec fn spec_opt_non_null_to_ptr<C: StableVTableTrait>(
    x: Option<StableNonNull<C>>,
) -> StablePtr<C> {
    match x {
        Some(n) => StablePtr { data: n.data, vtable: n.vtable, phantom: PhantomData },
        None => StablePtr { data: 0, vtable: 0, phantom: PhantomData },
    }
}

/// What reading a nullable pointer as an optional non-null pointer yields:
/// a null pointer reads as the absent value, any other as a present pointer
/// with the same two words.
pub open spec fn spec_ptr_to_opt_non_null<C: StableVTableTrait>(p: StablePtr<C>) -> Option<
    StableNonNull<C>,
> {
    if p.data == 0 {
        None
    } else {
        Some(StableNonNull { data: p.data, vtable: p.vtable, phantom: PhantomData })
    }
}

/// Reinterprets an optional non-null pointer as the nullable kind.  The
/// absent value is represented in-band as the null data word; a present
/// pointer keeps both words bit for bit.
pub fn reinterpret_opt_non_null<C: StableVTableTrait>(x: Option<StableNonNull<C>>) -> (p:
    StablePtr<C>)
    ensures
        p == spec_opt_non_null_to_ptr(x),
{
    match x {
        Some(n) => StablePtr { data: n.data, vtable: n.vtable, phantom: PhantomData },
        None => StablePtr { data: 0, vtable: 0, phantom: PhantomData },
    }
}

/// Reinterprets a nullable pointer as an optional non-null pointer: null
/// reads as the absent value, anything else keeps both words bit for bit.
/// A non-null data word must come with a non-null vtable word, or the value
/// has no reading in the non-null kind.
pub fn reinterpret_ptr_opt_non_null<C: StableVTableTrait>(p: StablePtr<C>) -> (x: Option<
    StableNonNull<C>,
>)
    requires
        p.data != 0 ==> p.vtable != 0,
    ensures
        x == spec_ptr_to_opt_non_null(p),
{
    if p.data == 0 {
        None
    } else {
        Some(StableNonNull { data: p.data, vtable: p.vtable, phantom: PhantomData })
    }
}

} // verus!
