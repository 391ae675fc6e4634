//! A model of the process the pointers live in: the static, read-only store
//! of vtable descriptors, and the record of every call dispatched through one.
//!
//! Native code reaches a descriptor by dereferencing its address and calls a
//! destructor or deallocator by jumping to the address in a slot.  Here both
//! effects are explicit: descriptors are registered once and looked up by
//! address, and each dispatched call is appended to a log, so that contracts
//! can state exactly which functions were invoked, on which object, in which
//! order.

use vstd::prelude::*;

use crate::traits::VTable;

verus! {

/// One call dispatched through a vtable slot: the address of the function
/// that was invoked and the data address it was handed.
#[derive(Clone, Copy, PartialEq, Eq, Debug)]
pub struct Invocation {
    /// Address of the invoked function.
    pub target: usize,
    /// Data address passed to it.
    pub data: usize,
}

/// The static descriptor store and the dispatch record.
///
/// A descriptor address is an index into `vtables`, shifted by one so that
/// the null address `0` never names a descriptor.  The store is append-only:
/// once registered, a descriptor is never changed, which models the
/// process-wide, read-only lifetime the layout contract demands.
pub struct Runtime {
    /// The registered descriptors; the descriptor at address `a` is
    /// `vtables[a - 1]`.
    pub vtables: Vec<VTable>,
    /// Every call dispatched through a descriptor slot, oldest first.
    pub calls: Vec<Invocation>,
}

/// The calls that running the destructor operation of `vt` on the object at
/// `data` dispatches: one call of the destructor when the descriptor has one,
/// none otherwise.
pub open spec fn destructor_calls(vt: VTable, data: usize) -> Seq<Invocation> {
    match vt.drop_in_place {
        Some(f) => seq![Invocation { target: f, data }],
        None => Seq::empty(),
    }
}

/// The calls that destroying and deallocating the object at `data` through
/// `vt` dispatches: the destructor first, when present, then the deallocator.
pub open spec fn destruct_calls(vt: VTable, data: usize) -> Seq<Invocation> {
    destructor_calls(vt, data).push(Invocation { target: vt.dealloc, data })
}

/// The dispatch log after releasing one owner per entry of `datas`, in
/// order, starting from `log`: owner `i` owns the object at `datas[i]` and
/// destroys it through the descriptor `vts[i]`.  Each release appends its
/// [`destruct_calls`] segment, which is exactly what releasing an owning
/// pointer ensures of the log.
pub open spec fn releases_log(
    log: Seq<Invocation>,
    vts: Seq<VTable>,
    datas: Seq<usize>,
) -> Seq<Invocation>
    decreases datas.len(),
{
    if datas.len() == 0 {
        log
    } else {
        releases_log(log, vts, datas.drop_last()) + destruct_calls(
            vts[datas.len() - 1],
            datas.last(),
        )
    }
}

/// The calls in `log` that address the object at `d`, oldest first.
pub open spec fn calls_on(log: Seq<Invocation>, d: usize) -> Seq<Invocation> {
    log.filter(|c: Invocation| c.data == d)
}

/// How many calls in `log` invoked the function at `target` on the object at
/// `data`.
pub open spec fn invocations_of(log: Seq<Invocation>, target: usize, data: usize) -> nat
    decreases log.len(),
{
    if log.len() == 0 {
        0
    } else {
        invocations_of(log.drop_last(), target, data) + (if log.last().target == target
            && log.last().data == data {
            1nat
        } else {
            0nat
        })
    }
}

impl Runtime {
    /// True when `addr` names a registered descriptor.
    pub open spec fn valid_vtable(self, addr: usize) -> bool {
        1 <= addr <= self.vtables@.len()
    }

    /// The descriptor registered at `addr`.
    pub open spec fn vtable_at(self, addr: usize) -> VTable {
        self.vtables@[addr - 1]
    }

    /// An empty process: no descriptors, no calls yet.
    pub fn new() -> (rt: Self)
        ensures
            rt.vtables@ =~= Seq::<VTable>::empty(),
            rt.calls@ =~= Seq::<Invocation>::empty(),
    {
        Runtime { vtables: Vec::new(), calls: Vec::new() }
    }

    /// Registers a descriptor and returns its address.  Registration models
    /// making a static descriptor reachable: it happens once per concrete
    /// type, and nothing ever mutates or removes what was registered.
    pub fn register(&mut self, vt: VTable) -> (addr: usize)
        requires
            old(self).vtables@.len() < usize::MAX,
        ensures
            final(self).vtables@ == old(self).vtables@.push(vt),
            final(self).calls@ == old(self).calls@,
            addr != 0,
            final(self).valid_vtable(addr),
            final(self).vtable_at(addr) == vt,
            forall|a: usize|
                old(self).valid_vtable(a) ==> final(self).valid_vtable(a)
                    && final(self).vtable_at(a) == old(self).vtable_at(a),
    {
        self.vtables.push(vt);
        self.vtables.len()
    }

    /// Looks a descriptor up by its address.
    pub fn vtable(&self, addr: usize) -> (vt: &VTable)
        requires
            self.valid_vtable(addr),
        ensures
            *vt == self.vtable_at(addr),
    {
        &self.vtables[addr - 1]
    }

    /// Dispatches one call through a descriptor slot: the function at
    /// `target` is invoked on the object at `data`, and the call is recorded.
    pub fn invoke(&mut self, target: usize, data: usize)
        ensures
            final(self).vtables@ == old(self).vtables@,
            final(self).calls@ == old(self).calls@.push(Invocation { target, data }),
    {
        self.calls.push(Invocation { target, data });
    }
}

} // verus!
