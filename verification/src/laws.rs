//! The guarantees the layout contract makes across the library, each stated
//! once and proved from the views the functions' own contracts use.

use vstd::prelude::*;

use crate::ptr::{spec_opt_non_null_to_ptr, spec_ptr_to_opt_non_null, StableNonNull, StablePtr};
use crate::refs::{spec_opt_ref_to_ptr, StableMut, StableRef};
use crate::runtime::{calls_on, destruct_calls, destructor_calls, invocations_of, releases_log, Invocation, Runtime};
use crate::traits::{
    descriptor_conforms, StablePointer, StablePointerCast, StableReference, StableVTableTrait,
    VTable,
};

verus! {

/// Size and alignment recovered through any of the four kinds equal the
/// concrete type's own.  All four kinds read the registered descriptor —
/// their `size_of_val` and `align_of_val` return exactly
/// `rt.vtable_at(kind.vtable_word()).size` and `.align` — and a descriptor
/// that conforms to the capability contract records the concrete type's true
/// size and alignment.
pub proof fn lemma_layout_recovered_through_all_kinds<C: StableVTableTrait>(
    rt: Runtime,
    vt_addr: usize,
    size: usize,
    align: usize,
    p: StablePtr<C>,
    n: StableNonNull<C>,
    r: StableRef<C>,
    m: StableMut<C>,
)
    requires
        rt.valid_vtable(vt_addr),
        descriptor_conforms(rt.vtable_at(vt_addr), size, align, C::slot_count()),
        p.vtable == vt_addr,
        n.vtable == vt_addr,
        r.vtable == vt_addr,
        m.vtable == vt_addr,
    ensures
        rt.vtable_at(p.vtable_word()).size == size,
        rt.vtable_at(p.vtable_word()).align == align,
        rt.vtable_at(n.vtable_word()).size == size,
        rt.vtable_at(n.vtable_word()).align == align,
        rt.vtable_at(r.vtable_word()).size == size,
        rt.vtable_at(r.vtable_word()).align == align,
        rt.vtable_at(m.vtable_word()).size == size,
        rt.vtable_at(m.vtable_word()).align == align,
{
}

/// The optional wrapper around the non-null kind adds no information: null
/// is represented in-band as the null data word, so reading a well-formed
/// optional value as the nullable kind and back recovers it exactly.
pub proof fn lemma_opt_non_null_round_trip<C: StableVTableTrait>(x: Option<StableNonNull<C>>)
    requires
        x matches Some(n) ==> n.wf(),
    ensures
        spec_ptr_to_opt_non_null(spec_opt_non_null_to_ptr(x)) == x,
{
}

/// The converse reading: a nullable pointer whose two words are non-null is
/// recovered exactly after being read as a present optional non-null value.
pub proof fn lemma_non_null_ptr_round_trip<C: StableVTableTrait>(p: StablePtr<C>)
    requires
        p.data != 0,
        p.vtable != 0,
    ensures
        spec_opt_non_null_to_ptr(spec_ptr_to_opt_non_null(p)) == p,
{
}

/// A null pointer reads as the absent optional value and stays null when
/// read back; only its vtable word, which carries no meaning in a null
/// value, is not preserved.
pub proof fn lemma_null_ptr_round_trip<C: StableVTableTrait>(p: StablePtr<C>)
    requires
        p.spec_is_null(),
    ensures
        spec_ptr_to_opt_non_null(p) is None,
        spec_opt_non_null_to_ptr(spec_ptr_to_opt_non_null(p)).spec_is_null(),
{
}

/// An absent optional value of either non-null kind, read as the nullable
/// raw kind, is null.
pub proof fn lemma_none_is_null<C: StableVTableTrait>()
    ensures
        spec_opt_non_null_to_ptr::<C>(None).spec_is_null(),
        spec_opt_ref_to_ptr::<C>(None).spec_is_null(),
{
}

/// A present optional value wrapping a well-formed non-null pointer or
/// borrow, read as the nullable raw kind, is not null.
pub proof fn lemma_some_is_not_null<C: StableVTableTrait>(n: StableNonNull<C>, r: StableRef<C>)
    requires
        n.wf(),
        r.wf(),
    ensures
        !spec_opt_non_null_to_ptr(Some(n)).spec_is_null(),
        !spec_opt_ref_to_ptr(Some(r)).spec_is_null(),
{
}

/// The down-cast round trip preserves the address: erasing a concrete
/// pointer writes its address into the data word — `to_stable` ensures
/// `p.data == x.addr()` — and down-casting recovers the address from the
/// data word alone — `from_stable` ensures `y.addr() == p.data`.  So the
/// recovered concrete pointer addresses the original object.
pub proof fn lemma_erase_downcast_round_trip<C: StableVTableTrait, P: StablePointerCast<C>>(
    x: P,
    p: StablePtr<C>,
    y: P,
)
    requires
        p.data == x.addr(),
        y.addr() == p.data,
    ensures
        y.addr() == x.addr(),
{
}

/// Erasure is injective: two concrete pointers to distinct addresses erase
/// to type-erased pointers with distinct data words, since `to_stable`
/// writes each concrete address into the data word unchanged.
pub proof fn lemma_erasure_injective<C: StableVTableTrait, P: StablePointerCast<C>>(
    x1: P,
    x2: P,
    p1: StablePtr<C>,
    p2: StablePtr<C>,
)
    requires
        x1.addr() != x2.addr(),
        p1.data == x1.addr(),
        p2.data == x2.addr(),
    ensures
        p1.data != p2.data,
{
}

/// Conversion closure over the kind lattice: every permitted conversion
/// carries both machine words over unchanged, so converting from one kind to
/// another and back yields the original two words — and the two words are
/// the whole bit pattern of every kind.
pub proof fn lemma_conversion_closure<
    C: StableVTableTrait,
    P: StablePointer<C>,
    Q: StablePointer<C>,
>(a: P, b: Q, c: P)
    requires
        b.data_word() == a.data_word(),
        b.vtable_word() == a.vtable_word(),
        c.data_word() == b.data_word(),
        c.vtable_word() == b.vtable_word(),
    ensures
        c.data_word() == a.data_word(),
        c.vtable_word() == a.vtable_word(),
{
}

/// The two words determine the nullable kind's value outright: two nullable
/// pointers with equal words are equal, so a conversion round trip that
/// returns the original words returns a value equal to the original.
pub proof fn lemma_words_determine_nullable<C: StableVTableTrait>(
    a: StablePtr<C>,
    b: StablePtr<C>,
)
    requires
        a.data == b.data,
        a.vtable == b.vtable,
    ensures
        a == b,
{
}

/// The two words determine the non-null kind's value outright as well.
pub proof fn lemma_words_determine_non_null<C: StableVTableTrait>(
    a: StableNonNull<C>,
    b: StableNonNull<C>,
)
    requires
        a.data == b.data,
        a.vtable == b.vtable,
    ensures
        a == b,
{
}

/// The two words determine the shared-borrow kind's value outright as well.
pub proof fn lemma_words_determine_shared<C: StableVTableTrait>(a: StableRef<C>, b: StableRef<C>)
    requires
        a.data == b.data,
        a.vtable == b.vtable,
    ensures
        a == b,
{
}

/// The two words determine the exclusive-borrow kind's value outright as
/// well.
pub proof fn lemma_words_determine_exclusive<C: StableVTableTrait>(a: StableMut<C>, b: StableMut<C>)
    requires
        a.data == b.data,
        a.vtable == b.vtable,
    ensures
        a == b,
{
}

/// Counting dispatched calls distributes over appending to the log.
proof fn lemma_invocations_append(a: Seq<Invocation>, b: Seq<Invocation>, target: usize, data: usize)
    ensures
        invocations_of(a + b, target, data) == invocations_of(a, target, data) + invocations_of(
            b,
            target,
            data,
        ),
    decreases b.len(),
{
    if b.len() == 0 {
        assert(a + b =~= a);
    } else {
        lemma_invocations_append(a, b.drop_last(), target, data);
        assert((a + b).drop_last() =~= a + b.drop_last());
        assert((a + b).last() == b.last());
    }
}

/// Recording one more call raises exactly the matching count by one.
proof fn lemma_invocations_push(a: Seq<Invocation>, x: Invocation, target: usize, data: usize)
    ensures
        invocations_of(a.push(x), target, data) == invocations_of(a, target, data) + (if x.target
            == target && x.data == data {
            1nat
        } else {
            0nat
        }),
{
    assert(a.push(x).drop_last() =~= a);
    assert(a.push(x).last() == x);
}

/// The exact count a destruction segment contributes: all of its calls
/// address the released object, the deallocator once, the destructor once
/// when the descriptor has one.
proof fn lemma_destruct_calls_count(vt: VTable, data: usize, t: usize, d: usize)
    ensures
        invocations_of(destruct_calls(vt, data), t, d) == (if d == data {
            (if vt.dealloc == t {
                1nat
            } else {
                0nat
            }) + (match vt.drop_in_place {
                Some(f) => if f == t {
                    1nat
                } else {
                    0nat
                },
                None => 0nat,
            })
        } else {
            0nat
        }),
{
    let di = Invocation { target: vt.dealloc, data };
    lemma_invocations_push(destructor_calls(vt, data), di, t, d);
    match vt.drop_in_place {
        Some(f) => {
            let fi = Invocation { target: f, data };
            assert(destructor_calls(vt, data) =~= Seq::<Invocation>::empty().push(fi));
            lemma_invocations_push(Seq::<Invocation>::empty(), fi, t, d);
        },
        None => {
            assert(destructor_calls(vt, data) =~= Seq::<Invocation>::empty());
        },
    }
}

/// A log none of whose calls address the object at `d` counts no invocation
/// on it.
proof fn lemma_count_zero_off_object(log: Seq<Invocation>, t: usize, d: usize)
    requires
        forall|k: int| 0 <= k < log.len() ==> log[k].data != d,
    ensures
        invocations_of(log, t, d) == 0,
    decreases log.len(),
{
    if log.len() > 0 {
        lemma_count_zero_off_object(log.drop_last(), t, d);
    }
}

/// Releasing owners of other objects leaves an object's counts unchanged.
proof fn lemma_releases_frame(
    log: Seq<Invocation>,
    vts: Seq<VTable>,
    datas: Seq<usize>,
    t: usize,
    d: usize,
)
    requires
        forall|j: int| 0 <= j < datas.len() ==> datas[j] != d,
    ensures
        invocations_of(releases_log(log, vts, datas), t, d) == invocations_of(log, t, d),
    decreases datas.len(),
{
    if datas.len() > 0 {
        let n = datas.len() - 1;
        lemma_releases_frame(log, vts, datas.drop_last(), t, d);
        lemma_invocations_append(
            releases_log(log, vts, datas.drop_last()),
            destruct_calls(vts[n], datas[n]),
            t,
            d,
        );
        lemma_destruct_calls_count(vts[n], datas[n], t, d);
    }
}

/// Destroying N owners of N distinct objects destroys and deallocates each
/// object exactly once overall — no double-free, no leak.  Each release
/// appends its `destruct_calls` segment, exactly what releasing an owning
/// pointer ensures of the log, so after all the releases the log is
/// `releases_log`; there, provided the log held no call on owner `i`'s
/// object beforehand, owner `i`'s destructor was invoked on its object
/// exactly once — when its descriptor has one — and its deallocator exactly
/// once.
pub proof fn lemma_distinct_owners_destroyed_once(
    log: Seq<Invocation>,
    vts: Seq<VTable>,
    datas: Seq<usize>,
    i: int,
)
    requires
        datas.len() <= vts.len(),
        0 <= i < datas.len(),
        forall|j: int| 0 <= j < datas.len() && j != i ==> datas[j] != datas[i],
        forall|k: int| 0 <= k < log.len() ==> log[k].data != datas[i],
        vts[i].drop_in_place matches Some(f) ==> f != vts[i].dealloc,
    ensures
        invocations_of(releases_log(log, vts, datas), vts[i].dealloc, datas[i]) == 1,
        vts[i].drop_in_place matches Some(f) ==> invocations_of(
            releases_log(log, vts, datas),
            f,
            datas[i],
        ) == 1,
    decreases datas.len(),
{
    let n = datas.len() - 1;
    let prefix = releases_log(log, vts, datas.drop_last());
    let dc = destruct_calls(vts[n], datas[n]);
    if i == n {
        lemma_count_zero_off_object(log, vts[i].dealloc, datas[i]);
        lemma_releases_frame(log, vts, datas.drop_last(), vts[i].dealloc, datas[i]);
        lemma_invocations_append(prefix, dc, vts[i].dealloc, datas[i]);
        lemma_destruct_calls_count(vts[n], datas[n], vts[i].dealloc, datas[i]);
        if let Some(f) = vts[i].drop_in_place {
            lemma_count_zero_off_object(log, f, datas[i]);
            lemma_releases_frame(log, vts, datas.drop_last(), f, datas[i]);
            lemma_invocations_append(prefix, dc, f, datas[i]);
            lemma_destruct_calls_count(vts[n], datas[n], f, datas[i]);
        }
    } else {
        lemma_distinct_owners_destroyed_once(log, vts, datas.drop_last(), i);
        lemma_invocations_append(prefix, dc, vts[i].dealloc, datas[i]);
        lemma_destruct_calls_count(vts[n], datas[n], vts[i].dealloc, datas[i]);
        if let Some(f) = vts[i].drop_in_place {
            lemma_invocations_append(prefix, dc, f, datas[i]);
            lemma_destruct_calls_count(vts[n], datas[n], f, datas[i]);
        }
    }
}

/// Every call of a destruction segment addresses the released object.
proof fn lemma_destruct_calls_address(vt: VTable, data: usize)
    ensures
        forall|k: int|
            0 <= k < destruct_calls(vt, data).len() ==> (#[trigger] destruct_calls(vt, data)[k]).data
                == data,
{
    let dc = destruct_calls(vt, data);
    assert forall|k: int| 0 <= k < dc.len() implies dc[k].data == data by {
        match vt.drop_in_place {
            Some(f) => {
                if k == 0 {
                    assert(dc[0] == Invocation { target: f, data });
                } else {
                    assert(dc[1] == Invocation { target: vt.dealloc, data });
                }
            },
            None => {
                assert(dc[0] == Invocation { target: vt.dealloc, data });
            },
        }
    }
}

/// A log none of whose calls address the object at `d` records no call on
/// it.
proof fn lemma_calls_on_empty(log: Seq<Invocation>, d: usize)
    requires
        forall|k: int| 0 <= k < log.len() ==> log[k].data != d,
    ensures
        calls_on(log, d) == Seq::<Invocation>::empty(),
    decreases log.len(),
{
    reveal(Seq::filter);
    if log.len() > 0 {
        lemma_calls_on_empty(log.drop_last(), d);
    }
}

/// A log all of whose calls address the object at `d` is its own record of
/// the calls on it.
proof fn lemma_calls_on_whole(log: Seq<Invocation>, d: usize)
    requires
        forall|k: int| 0 <= k < log.len() ==> log[k].data == d,
    ensures
        calls_on(log, d) == log,
    decreases log.len(),
{
    reveal(Seq::filter);
    if log.len() > 0 {
        lemma_calls_on_whole(log.drop_last(), d);
        assert(log.drop_last().push(log.last()) =~= log);
    }
}

/// Splitting a log splits its record of the calls on an object.
proof fn lemma_calls_on_append(a: Seq<Invocation>, b: Seq<Invocation>, d: usize)
    ensures
        calls_on(a + b, d) == calls_on(a, d) + calls_on(b, d),
{
    broadcast use Seq::filter_distributes_over_add;

}

/// After releases of other objects only, every call still dispatched avoids
/// the object at `d`.
proof fn lemma_releases_off_object(
    log: Seq<Invocation>,
    vts: Seq<VTable>,
    datas: Seq<usize>,
    d: usize,
)
    requires
        forall|k: int| 0 <= k < log.len() ==> log[k].data != d,
        forall|j: int| 0 <= j < datas.len() ==> datas[j] != d,
    ensures
        forall|k: int|
            0 <= k < releases_log(log, vts, datas).len() ==> (#[trigger] releases_log(
                log,
                vts,
                datas,
            )[k]).data != d,
    decreases datas.len(),
{
    if datas.len() > 0 {
        let n = datas.len() - 1;
        let prefix = releases_log(log, vts, datas.drop_last());
        let dc = destruct_calls(vts[n], datas[n]);
        lemma_releases_off_object(log, vts, datas.drop_last(), d);
        lemma_destruct_calls_address(vts[n], datas[n]);
        assert forall|k: int|
            0 <= k < releases_log(log, vts, datas).len() implies (releases_log(
            log,
            vts,
            datas,
        )[k]).data != d by {
            if k < prefix.len() {
                assert(releases_log(log, vts, datas)[k] == prefix[k]);
            } else {
                assert(releases_log(log, vts, datas)[k] == dc[k - prefix.len()]);
            }
        }
    }
}

/// The strongest form of single destruction: among everything the releases
/// dispatch, the calls addressing owner `i`'s object are exactly its own
/// destruction segment, in order — the destructor first, when the
/// descriptor has one, the deallocator last, and nothing else ever touches
/// the object.
pub proof fn lemma_owner_calls_exact(
    log: Seq<Invocation>,
    vts: Seq<VTable>,
    datas: Seq<usize>,
    i: int,
)
    requires
        datas.len() <= vts.len(),
        0 <= i < datas.len(),
        forall|j: int| 0 <= j < datas.len() && j != i ==> datas[j] != datas[i],
        forall|k: int| 0 <= k < log.len() ==> log[k].data != datas[i],
    ensures
        calls_on(releases_log(log, vts, datas), datas[i]) == destruct_calls(vts[i], datas[i]),
    decreases datas.len(),
{
    let d = datas[i];
    let n = datas.len() - 1;
    let prefix = releases_log(log, vts, datas.drop_last());
    let dc = destruct_calls(vts[n], datas[n]);
    lemma_calls_on_append(prefix, dc, d);
    if i == n {
        lemma_releases_off_object(log, vts, datas.drop_last(), d);
        lemma_calls_on_empty(prefix, d);
        lemma_destruct_calls_address(vts[n], datas[n]);
        lemma_calls_on_whole(dc, d);
        assert(calls_on(releases_log(log, vts, datas), d) =~= dc);
    } else {
        lemma_owner_calls_exact(log, vts, datas.drop_last(), i);
        lemma_destruct_calls_address(vts[n], datas[n]);
        lemma_calls_on_empty(dc, d);
        assert(calls_on(releases_log(log, vts, datas), d) =~= destruct_calls(vts[i], d));
    }
}

/// Single destruction: releasing one owner appends to the dispatch log
/// exactly one invocation of the descriptor's destructor on the owned object
/// — when the descriptor has one — strictly followed by exactly one
/// invocation of its deallocator on the same object, and touches no other
/// object's counts.  Releasing N owners of N distinct objects therefore
/// destroys and deallocates each exactly once.
pub proof fn lemma_single_destruction(
    pre: Seq<Invocation>,
    post: Seq<Invocation>,
    vt: VTable,
    data: usize,
)
    requires
        post == pre + destruct_calls(vt, data),
        vt.drop_in_place matches Some(f) ==> f != vt.dealloc,
    ensures
        invocations_of(post, vt.dealloc, data) == invocations_of(pre, vt.dealloc, data) + 1,
        vt.drop_in_place matches Some(f) ==> invocations_of(post, f, data) == invocations_of(
            pre,
            f,
            data,
        ) + 1,
        vt.drop_in_place matches Some(f) ==> post.len() == pre.len() + 2 && post[post.len() - 2]
            == (Invocation { target: f, data }) && post[post.len() - 1] == (Invocation {
            target: vt.dealloc,
            data,
        }),
        vt.drop_in_place is None ==> post.len() == pre.len() + 1 && post[post.len() - 1]
            == (Invocation { target: vt.dealloc, data }),
        forall|t: usize, d: usize|
            d != data ==> invocations_of(post, t, d) == invocations_of(pre, t, d),
{
    let dc = destruct_calls(vt, data);
    let di = Invocation { target: vt.dealloc, data };
    match vt.drop_in_place {
        Some(f) => {
            let fi = Invocation { target: f, data };
            assert(destructor_calls(vt, data) =~= Seq::<Invocation>::empty().push(fi));
            assert forall|t: usize, d: usize|
                invocations_of(dc, t, d) == (if f == t && data == d {
                    1nat
                } else {
                    0nat
                }) + (if vt.dealloc == t && data == d {
                    1nat
                } else {
                    0nat
                }) by {
                lemma_invocations_push(destructor_calls(vt, data), di, t, d);
                lemma_invocations_push(Seq::<Invocation>::empty(), fi, t, d);
            }
        },
        None => {
            assert(destructor_calls(vt, data) =~= Seq::<Invocation>::empty());
            assert forall|t: usize, d: usize|
                invocations_of(dc, t, d) == (if vt.dealloc == t && data == d {
                    1nat
                } else {
                    0nat
                }) by {
                lemma_invocations_push(destructor_calls(vt, data), di, t, d);
            }
        },
    }
    assert forall|t: usize, d: usize|
        invocations_of(post, t, d) == invocations_of(pre, t, d) + invocations_of(dc, t, d) by {
        lemma_invocations_append(pre, dc, t, d);
    }
}

} // verus!
