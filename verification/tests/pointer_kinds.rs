//! The pointer and reference kinds: null checks, optional reinterpretation,
//! layout recovery, and conversions along the kind lattice.

use stable_vtable::ptr::{
    reinterpret_opt_non_null, reinterpret_ptr_opt_non_null, StableNonNull, StablePtr,
};
use stable_vtable::refs::{reinterpret_opt_ref, StableMut, StableRef};
use stable_vtable::runtime::Runtime;
use stable_vtable::traits::{into_other, StablePointer, StableReference, VTable};
use stable_vtable::WithStableVTable;

#[test]
fn test_ref_none_is_null() {
    let x = None::<StableRef<WithStableVTable>>;
    let ptr: StablePtr<WithStableVTable> = reinterpret_opt_ref(x);
    assert!(ptr.is_null())
}

#[test]
fn test_nonnull_none_is_null() {
    let x = None::<StableRef<WithStableVTable>>;
    let ptr: StablePtr<WithStableVTable> = reinterpret_opt_ref(x);
    assert!(ptr.is_null())
}

#[test]
#[should_panic]
fn test_ref_some_is_not_null() {
    let mut rt = Runtime::new();
    let vt = rt.register(VTable {
        size: 0,
        align: 1,
        drop_in_place: None,
        dealloc: 0x32,
        vfns: vec![0x33],
    });
    let x = Some(StablePtr::<WithStableVTable>::new(0x1000, vt).deref());
    let ptr = reinterpret_opt_ref(x);
    assert!(ptr.is_null())
}

#[test]
fn opt_non_null_none_is_null() {
    let x = None::<StableNonNull<WithStableVTable>>;
    let ptr = reinterpret_opt_non_null(x);
    assert!(ptr.is_null())
}

#[test]
fn ref_some_is_not_null() {
    let r = StableRef::<WithStableVTable>::new(0x1000, 0x2000);
    let ptr = reinterpret_opt_ref(Some(r));
    assert!(!ptr.is_null());
    assert_eq!(ptr.data, 0x1000);
    assert_eq!(ptr.vtable, 0x2000);
}

#[test]
fn non_null_some_is_not_null() {
    let n = StableNonNull::<WithStableVTable>::new(0x1000, 0x2000);
    let ptr = reinterpret_opt_non_null(Some(n));
    assert!(!ptr.is_null());
    assert_eq!(ptr.data, 0x1000);
    assert_eq!(ptr.vtable, 0x2000);
}

#[test]
fn null_ptr_reads_as_absent() {
    let p = StablePtr::<WithStableVTable>::new(0, 0);
    assert!(reinterpret_ptr_opt_non_null(p).is_none());
}

#[test]
fn non_null_ptr_reads_as_present() {
    let p = StablePtr::<WithStableVTable>::new(0x1000, 0x2000);
    let x = reinterpret_ptr_opt_non_null(p);
    match x {
        Some(n) => {
            assert_eq!(n.data, 0x1000);
            assert_eq!(n.vtable, 0x2000);
        },
        None => panic!("a non-null pointer must read as a present value"),
    }
}

#[test]
fn opt_non_null_round_trips() {
    let n = StableNonNull::<WithStableVTable>::new(0x1000, 0x2000);
    let back = reinterpret_ptr_opt_non_null(reinterpret_opt_non_null(Some(n)));
    match back {
        Some(m) => {
            assert_eq!(m.data, 0x1000);
            assert_eq!(m.vtable, 0x2000);
        },
        None => panic!("a present value must round-trip to a present value"),
    }
    let absent = reinterpret_ptr_opt_non_null(reinterpret_opt_non_null(
        None::<StableNonNull<WithStableVTable>>,
    ));
    assert!(absent.is_none());
}

fn sample_runtime() -> (Runtime, usize) {
    let mut rt = Runtime::new();
    let addr = rt.register(VTable {
        size: 24,
        align: 8,
        drop_in_place: Some(0x31),
        dealloc: 0x32,
        vfns: vec![0x33],
    });
    (rt, addr)
}

#[test]
fn size_and_align_recovered_through_every_kind() {
    let (rt, vt) = sample_runtime();
    let p = StablePtr::<WithStableVTable>::new(0x1000, vt);
    let n = StableNonNull::<WithStableVTable>::new(0x1000, vt);
    let r = StableRef::<WithStableVTable>::new(0x1000, vt);
    let m = StableMut::<WithStableVTable>::new(0x1000, vt);
    assert_eq!(p.size_of_val(&rt), 24);
    assert_eq!(p.align_of_val(&rt), 8);
    assert_eq!(n.size_of_val(&rt), 24);
    assert_eq!(n.align_of_val(&rt), 8);
    assert_eq!(r.size_of_val(&rt), 24);
    assert_eq!(r.align_of_val(&rt), 8);
    assert_eq!(m.size_of_val(&rt), 24);
    assert_eq!(m.align_of_val(&rt), 8);
}

#[test]
fn nullable_to_non_null_and_back_is_identity() {
    let p = StablePtr::<WithStableVTable>::new(0x1000, 0x2000);
    let n: StableNonNull<WithStableVTable> = into_other(p);
    let q: StablePtr<WithStableVTable> = into_other(n);
    assert_eq!(q.data, p.data);
    assert_eq!(q.vtable, p.vtable);
}

#[test]
fn from_non_null_keeps_both_words() {
    let n = StableNonNull::<WithStableVTable>::new(0x1000, 0x2000);
    let p = StablePtr::from(n);
    assert_eq!(p.data, 0x1000);
    assert_eq!(p.vtable, 0x2000);
}

#[test]
fn deref_and_into_raw_round_trip() {
    let n = StableNonNull::<WithStableVTable>::new(0x1000, 0x2000);
    let r = n.deref();
    assert_eq!(r.data, 0x1000);
    assert_eq!(r.vtable, 0x2000);
    let p = r.into_raw();
    assert_eq!(p.data, 0x1000);
    assert_eq!(p.vtable, 0x2000);
}

#[test]
fn exclusive_widens_to_shared_unchanged() {
    let n = StableNonNull::<WithStableVTable>::new(0x1000, 0x2000);
    let m = n.deref_mut();
    let r = StableRef::from(m);
    assert_eq!(r.data, 0x1000);
    assert_eq!(r.vtable, 0x2000);
    let p = r.into_raw();
    assert_eq!(p.data, 0x1000);
    assert_eq!(p.vtable, 0x2000);
}

#[test]
fn drop_in_place_dispatches_destructor_only() {
    let (mut rt, vt) = sample_runtime();
    let p = StablePtr::<WithStableVTable>::new(0x1000, vt);
    p.drop_in_place(&mut rt);
    assert_eq!(rt.calls.len(), 1);
    assert_eq!(rt.calls[0].target, 0x31);
    assert_eq!(rt.calls[0].data, 0x1000);
}

#[test]
fn dealloc_dispatches_deallocator() {
    let (mut rt, vt) = sample_runtime();
    let n = StableNonNull::<WithStableVTable>::new(0x1000, vt);
    n.dealloc(&mut rt);
    assert_eq!(rt.calls.len(), 1);
    assert_eq!(rt.calls[0].target, 0x32);
    assert_eq!(rt.calls[0].data, 0x1000);
}

#[test]
fn four_kinds_share_one_size() {
    let ptr_size = core::mem::size_of::<StablePtr<WithStableVTable>>();
    assert_eq!(core::mem::size_of::<StableNonNull<WithStableVTable>>(), ptr_size);
    assert_eq!(core::mem::size_of::<StableRef<WithStableVTable>>(), ptr_size);
    assert_eq!(core::mem::size_of::<StableMut<WithStableVTable>>(), ptr_size);
}

#[test]
fn destructorless_drop_in_place_dispatches_nothing() {
    let mut rt = Runtime::new();
    let vt = rt.register(VTable {
        size: 8,
        align: 8,
        drop_in_place: None,
        dealloc: 0x32,
        vfns: vec![0x33],
    });
    let p = StablePtr::<WithStableVTable>::new(0x1000, vt);
    p.drop_in_place(&mut rt);
    assert_eq!(rt.calls.len(), 0);
}
