//! The owning smart pointer, the capability contract, and the down-cast.

use stable_vtable::boxed::Box;
use stable_vtable::ptr::StableNonNull;
use stable_vtable::runtime::{Invocation, Runtime};
use stable_vtable::traits::{StablePointerCast, TraitVTable, VTable};
use stable_vtable::{StableVTableImplPtr, WithStableVTable, WithStableVTableVTable};

fn register_sample(rt: &mut Runtime, destructor: Option<usize>) -> usize {
    rt.register(VTable {
        size: 16,
        align: 8,
        drop_in_place: destructor,
        dealloc: 0x52,
        vfns: vec![0x53],
    })
}

#[test]
fn release_runs_destructor_then_deallocator_once() {
    let mut rt = Runtime::new();
    let vt = register_sample(&mut rt, Some(0x51));
    let owner = Box::<WithStableVTable>::from(StableNonNull::new(0x1000, vt));
    owner.release(&mut rt);
    assert_eq!(
        rt.calls,
        vec![
            Invocation { target: 0x51, data: 0x1000 },
            Invocation { target: 0x52, data: 0x1000 },
        ]
    );
}

#[test]
fn release_without_destructor_only_deallocates() {
    let mut rt = Runtime::new();
    let vt = register_sample(&mut rt, None);
    let owner = Box::<WithStableVTable>::from(StableNonNull::new(0x1000, vt));
    owner.release(&mut rt);
    assert_eq!(rt.calls, vec![Invocation { target: 0x52, data: 0x1000 }]);
}

#[test]
fn distinct_owners_destroy_each_object_exactly_once() {
    let mut rt = Runtime::new();
    let vt = register_sample(&mut rt, Some(0x51));
    let first = Box::<WithStableVTable>::from(StableNonNull::new(0x1000, vt));
    let second = Box::<WithStableVTable>::from(StableNonNull::new(0x2000, vt));
    first.release(&mut rt);
    second.release(&mut rt);
    for data in [0x1000usize, 0x2000usize] {
        let destroyed = rt.calls.iter().filter(|c| c.target == 0x51 && c.data == data).count();
        let deallocated = rt.calls.iter().filter(|c| c.target == 0x52 && c.data == data).count();
        assert_eq!(destroyed, 1);
        assert_eq!(deallocated, 1);
    }
    assert_eq!(rt.calls.len(), 4);
}

#[test]
fn three_owners_mixed_descriptors_each_destroyed_exactly_once() {
    let mut rt = Runtime::new();
    let with_destructor = register_sample(&mut rt, Some(0x51));
    let destructorless = register_sample(&mut rt, None);
    let owners = [
        (0x1000usize, with_destructor),
        (0x2000usize, destructorless),
        (0x3000usize, with_destructor),
    ];
    for (data, vt) in owners {
        Box::<WithStableVTable>::from(StableNonNull::new(data, vt)).release(&mut rt);
    }
    for (data, vt) in owners {
        let on_object: Vec<&Invocation> = rt.calls.iter().filter(|c| c.data == data).collect();
        if rt.vtable(vt).drop_in_place.is_some() {
            assert_eq!(on_object.len(), 2);
            assert_eq!(on_object[0].target, 0x51);
            assert_eq!(on_object[1].target, 0x52);
        } else {
            assert_eq!(on_object.len(), 1);
            assert_eq!(on_object[0].target, 0x52);
        }
    }
    assert_eq!(rt.calls.len(), 5);
}

#[test]
fn owner_borrows_share_its_words() {
    let mut rt = Runtime::new();
    let vt = register_sample(&mut rt, Some(0x51));
    let mut owner = Box::<WithStableVTable>::from(StableNonNull::new(0x1000, vt));
    let r = owner.deref();
    assert_eq!(r.data, 0x1000);
    assert_eq!(r.vtable, vt);
    let m = owner.deref_mut();
    assert_eq!(m.data, 0x1000);
    assert_eq!(m.vtable, vt);
    owner.release(&mut rt);
}

#[test]
fn erase_then_downcast_recovers_the_address() {
    let x = StableVTableImplPtr { object: 0x1000, descriptor: 0x2000 };
    let p = x.to_stable();
    assert_eq!(p.data, 0x1000);
    assert_eq!(p.vtable, 0x2000);
    let y = StableVTableImplPtr::from_stable(p);
    assert_eq!(y.object, 0x1000);
    assert_eq!(y.descriptor, 0x2000);
}

#[test]
fn erase_then_downcast_through_borrows_recovers_the_address() {
    let x = StableVTableImplPtr { object: 0x1000, descriptor: 0x2000 };
    let r = x.to_stable_ref();
    let y = StableVTableImplPtr::from_stable_ref(r);
    assert_eq!(y.object, 0x1000);
    let z = StableVTableImplPtr { object: 0x3000, descriptor: 0x2000 };
    let m = z.to_stable_mut();
    let w = StableVTableImplPtr::from_stable_mut(m);
    assert_eq!(w.object, 0x3000);
}

#[test]
fn erase_non_null_carries_both_words() {
    let x = StableVTableImplPtr { object: 0x1000, descriptor: 0x2000 };
    let n = x.to_stable_non_null();
    assert_eq!(n.data, 0x1000);
    assert_eq!(n.vtable, 0x2000);
}

#[test]
fn sample_descriptor_reads_as_conforming_vtable() {
    let d = WithStableVTableVTable {
        size: 16,
        align: 8,
        destroy: Some(0x51),
        dealloc: 0x52,
        vfn_item: 0x53,
    };
    let vt = d.as_vtable();
    assert_eq!(vt.size, 16);
    assert_eq!(vt.align, 8);
    assert_eq!(vt.drop_in_place, Some(0x51));
    assert_eq!(vt.dealloc, 0x52);
    assert_eq!(vt.vfns, vec![0x53]);
}

#[test]
fn registered_descriptors_are_looked_up_unchanged() {
    let mut rt = Runtime::new();
    let first = register_sample(&mut rt, Some(0x51));
    let second = rt.register(VTable {
        size: 4,
        align: 4,
        drop_in_place: None,
        dealloc: 0x62,
        vfns: vec![0x63],
    });
    assert_ne!(first, 0);
    assert_ne!(second, 0);
    assert_ne!(first, second);
    assert_eq!(rt.vtable(first).size, 16);
    assert_eq!(rt.vtable(first).drop_in_place, Some(0x51));
    assert_eq!(rt.vtable(second).size, 4);
    assert_eq!(rt.vtable(second).dealloc, 0x62);
}
