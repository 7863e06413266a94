//! The laws of the projection, proved once and for all shapes: projecting
//! is idempotent, a self-contained shape is a fixed point, counterparts are
//! always self-contained, references and tuples project componentwise, and
//! the identifier is exact — equal exactly when the counterparts are equal.

use vstd::prelude::*;

use crate::identity::enc;
use crate::identity::lemma_enc_injective;
use crate::identity::name_of;
use crate::project::static_of;
use crate::project::static_of_list;
use crate::project::ProjectionError;
use crate::registry::Registry;
use crate::ty::is_self_contained;
use crate::ty::is_sized;
use crate::ty::list_all_self_contained;
use crate::ty::list_len;
use crate::ty::list_seq;
use crate::ty::Leaf;
use crate::ty::Lifetime;
use crate::ty::Ty;
use crate::ty::TyList;

verus! {

/// Every leaf projects to itself: a leaf is already self-contained, so its
/// canonical counterpart is the leaf, and its identifier and name are the
/// leaf's own.
pub proof fn lemma_leaf_projects_to_itself(l: Leaf, reg: Registry)
    ensures
        static_of(Ty::Leaf(l), reg) == Ok::<Ty, ProjectionError>(Ty::Leaf(l)),
        enc(static_of(Ty::Leaf(l), reg)->Ok_0) == enc(Ty::Leaf(l)),
{
}

/// A counterpart is always self-contained, and projecting it again gives it
/// back unchanged: the projection is idempotent. In particular the
/// identifier and the name of a shape equal those of its counterpart.
pub proof fn lemma_projection_idempotent(t: Ty, reg: Registry)
    requires
        static_of(t, reg) is Ok,
    ensures
        is_self_contained(static_of(t, reg)->Ok_0),
        static_of(static_of(t, reg)->Ok_0, reg) == static_of(t, reg),
    decreases t, 1int,
{
    match t {
        Ty::Leaf(_) => {
        },
        Ty::Opaque(_) => {
        },
        Ty::Ref(_, inner) => {
            lemma_projection_idempotent(*inner, reg);
        },
        Ty::SliceRef(_, inner) => {
            lemma_projection_idempotent(*inner, reg);
        },
        Ty::Tuple(ts) => {
            lemma_projection_idempotent_list(ts, reg);
        },
        Ty::Optional(inner) => {
            lemma_projection_idempotent(*inner, reg);
        },
        Ty::Fallible(a, b) => {
            lemma_projection_idempotent(*a, reg);
            lemma_projection_idempotent(*b, reg);
        },
        Ty::EarlyExit(a, b) => {
            lemma_projection_idempotent(*a, reg);
            lemma_projection_idempotent(*b, reg);
        },
        Ty::Endpoint(inner) => {
            lemma_projection_idempotent(*inner, reg);
        },
        Ty::Sequence(inner) => {
            lemma_projection_idempotent(*inner, reg);
        },
        Ty::OrderedMap(k, v) => {
            lemma_projection_idempotent(*k, reg);
            lemma_projection_idempotent(*v, reg);
        },
        Ty::OrderedSet(inner) => {
            lemma_projection_idempotent(*inner, reg);
        },
        Ty::PriorityQueue(inner) => {
            lemma_projection_idempotent(*inner, reg);
        },
        Ty::LinkedList(inner) => {
            lemma_projection_idempotent(*inner, reg);
        },
        Ty::Deque(inner) => {
            lemma_projection_idempotent(*inner, reg);
        },
        Ty::FnPtr => {
        },
    }
}

/// Componentwise form of [`lemma_projection_idempotent`] for tuple
/// component lists, keeping the component count along the way.
pub proof fn lemma_projection_idempotent_list(l: TyList, reg: Registry)
    requires
        static_of_list(l, reg) is Ok,
    ensures
        list_all_self_contained(static_of_list(l, reg)->Ok_0),
        static_of_list(static_of_list(l, reg)->Ok_0, reg) == static_of_list(l, reg),
        list_len(static_of_list(l, reg)->Ok_0) == list_len(l),
    decreases l, 0int,
{
    match l {
        TyList::Nil => {
        },
        TyList::Cons(hd, tl) => {
            lemma_projection_idempotent(*hd, reg);
            lemma_projection_idempotent_list(*tl, reg);
        },
    }
}

/// A self-contained shape whose projection resolves is a fixed point of the
/// projection: there was nothing to replace.
pub proof fn lemma_self_contained_fixed_point(t: Ty, reg: Registry)
    requires
        is_self_contained(t),
        static_of(t, reg) is Ok,
    ensures
        static_of(t, reg) == Ok::<Ty, ProjectionError>(t),
    decreases t, 1int,
{
    match t {
        Ty::Leaf(_) => {
        },
        Ty::Opaque(_) => {
        },
        Ty::Ref(_, inner) => {
            lemma_self_contained_fixed_point(*inner, reg);
        },
        Ty::SliceRef(_, inner) => {
            lemma_self_contained_fixed_point(*inner, reg);
        },
        Ty::Tuple(ts) => {
            lemma_self_contained_fixed_point_list(ts, reg);
        },
        Ty::Optional(inner) => {
            lemma_self_contained_fixed_point(*inner, reg);
        },
        Ty::Fallible(a, b) => {
            lemma_self_contained_fixed_point(*a, reg);
            lemma_self_contained_fixed_point(*b, reg);
        },
        Ty::EarlyExit(a, b) => {
            lemma_self_contained_fixed_point(*a, reg);
            lemma_self_contained_fixed_point(*b, reg);
        },
        Ty::Endpoint(inner) => {
            lemma_self_contained_fixed_point(*inner, reg);
        },
        Ty::Sequence(inner) => {
            lemma_self_contained_fixed_point(*inner, reg);
        },
        Ty::OrderedMap(k, v) => {
            lemma_self_contained_fixed_point(*k, reg);
            lemma_self_contained_fixed_point(*v, reg);
        },
        Ty::OrderedSet(inner) => {
            lemma_self_contained_fixed_point(*inner, reg);
        },
        Ty::PriorityQueue(inner) => {
            lemma_self_contained_fixed_point(*inner, reg);
        },
        Ty::LinkedList(inner) => {
            lemma_self_contained_fixed_point(*inner, reg);
        },
        Ty::Deque(inner) => {
            lemma_self_contained_fixed_point(*inner, reg);
        },
        Ty::FnPtr => {
        },
    }
}

/// Componentwise form of [`lemma_self_contained_fixed_point`].
pub proof fn lemma_self_contained_fixed_point_list(l: TyList, reg: Registry)
    requires
        list_all_self_contained(l),
        static_of_list(l, reg) is Ok,
    ensures
        static_of_list(l, reg) == Ok::<TyList, ProjectionError>(l),
    decreases l, 0int,
{
    match l {
        TyList::Nil => {
        },
        TyList::Cons(hd, tl) => {
            lemma_self_contained_fixed_point(*hd, reg);
            lemma_self_contained_fixed_point_list(*tl, reg);
        },
    }
}

/// A reference distributes over the projection: whatever its own lifetime,
/// it projects to a `Static` reference to its component's counterpart, and
/// it fails exactly when the component does. In particular two references
/// that differ only in lifetime share a counterpart, hence an identifier.
pub proof fn lemma_ref_distributes(lt: Lifetime, t: Ty, reg: Registry)
    ensures
        static_of(t, reg) is Ok ==> static_of(Ty::Ref(lt, Box::new(t)), reg) == Ok::<
            Ty,
            ProjectionError,
        >(Ty::Ref(Lifetime::Static, Box::new(static_of(t, reg)->Ok_0))),
        static_of(t, reg) is Err ==> static_of(Ty::Ref(lt, Box::new(t)), reg) == Err::<
            Ty,
            ProjectionError,
        >(static_of(t, reg)->Err_0),
{
}

/// Two references to the same component, whatever their lifetimes, project
/// to the same counterpart — so their identifiers and names are identical.
pub proof fn lemma_ref_identity_ignores_lifetime(
    lt1: Lifetime,
    lt2: Lifetime,
    t: Ty,
    reg: Registry,
)
    ensures
        static_of(Ty::Ref(lt1, Box::new(t)), reg) == static_of(Ty::Ref(lt2, Box::new(t)), reg),
        static_of(Ty::SliceRef(lt1, Box::new(t)), reg) == static_of(
            Ty::SliceRef(lt2, Box::new(t)),
            reg,
        ),
{
}

/// A tuple's component list projects componentwise: it resolves exactly
/// when every component resolves to a sized counterpart, and then position
/// by position to the components' counterparts, keeping the count.
pub proof fn lemma_list_componentwise(l: TyList, reg: Registry)
    ensures
        static_of_list(l, reg) is Ok <==> (forall|i: int|
            0 <= i < list_seq(l).len() ==> (#[trigger] static_of(list_seq(l)[i], reg)) is Ok
                && is_sized(static_of(list_seq(l)[i], reg)->Ok_0)),
        static_of_list(l, reg) is Ok ==> list_seq(static_of_list(l, reg)->Ok_0).len() == list_seq(
            l,
        ).len(),
        static_of_list(l, reg) is Ok ==> (forall|i: int|
            0 <= i < list_seq(l).len() ==> list_seq(static_of_list(l, reg)->Ok_0)[i] == static_of(
                #[trigger] list_seq(l)[i],
                reg,
            )->Ok_0),
    decreases l,
{
    match l {
        TyList::Nil => {
            assert(list_seq(l).len() == 0);
        },
        TyList::Cons(hd, tl) => {
            lemma_list_componentwise(*tl, reg);
            assert(list_seq(l) == seq![*hd] + list_seq(*tl));
            assert(list_seq(l)[0] == *hd);
            assert forall|i: int| 1 <= i < list_seq(l).len() implies list_seq(l)[i] == list_seq(
                *tl,
            )[i - 1] by {}
            if static_of_list(l, reg) is Ok {
                let ss = static_of_list(l, reg)->Ok_0;
                let s = static_of(*hd, reg)->Ok_0;
                assert(ss == TyList::Cons(
                    Box::new(s),
                    Box::new(static_of_list(*tl, reg)->Ok_0),
                ));
                assert(list_seq(ss) == seq![s] + list_seq(static_of_list(*tl, reg)->Ok_0));
            } else {
                if static_of(*hd, reg) is Ok && is_sized(static_of(*hd, reg)->Ok_0) {
                    assert(static_of_list(*tl, reg) is Err);
                    let j = choose|j: int|
                        0 <= j < list_seq(*tl).len() && !((#[trigger] static_of(
                            list_seq(*tl)[j],
                            reg,
                        )) is Ok && is_sized(static_of(list_seq(*tl)[j], reg)->Ok_0));
                    assert(list_seq(l)[j + 1] == list_seq(*tl)[j]);
                }
            }
        },
    }
}

/// Tuple distributivity: when the registry covers the arity and every
/// component has a sized counterpart, the tuple's counterpart is the tuple
/// of the components' counterparts, position by position.
pub proof fn lemma_tuple_distributes(ts: TyList, reg: Registry)
    requires
        reg.spec_arity_supported(list_len(ts)),
        forall|i: int|
            0 <= i < list_seq(ts).len() ==> (#[trigger] static_of(list_seq(ts)[i], reg)) is Ok
                && is_sized(static_of(list_seq(ts)[i], reg)->Ok_0),
    ensures
        static_of(Ty::Tuple(ts), reg) is Ok,
        static_of(Ty::Tuple(ts), reg)->Ok_0 is Tuple,
        list_seq(static_of(Ty::Tuple(ts), reg)->Ok_0->Tuple_0).len() == list_seq(ts).len(),
        forall|i: int|
            0 <= i < list_seq(ts).len() ==> list_seq(static_of(Ty::Tuple(ts), reg)->Ok_0->Tuple_0)[
                i
            ] == static_of(#[trigger] list_seq(ts)[i], reg)->Ok_0,
{
    lemma_list_componentwise(ts, reg);
}

/// A tuple of an uncovered arity is refused, whatever its components.
pub proof fn lemma_tuple_arity_refused(ts: TyList, reg: Registry)
    requires
        !reg.spec_arity_supported(list_len(ts)),
    ensures
        static_of(Ty::Tuple(ts), reg) == Err::<Ty, ProjectionError>(
            ProjectionError::ArityUnsupported,
        ),
{
}

/// The identifier is exact: two shapes with resolved projections have equal
/// identifiers precisely when they have the same counterpart — collisions
/// between differently-shaped sources are intentional and happen exactly
/// when the projections agree. Equal counterparts share the display name
/// too.
pub proof fn lemma_identifier_exact(t1: Ty, t2: Ty, reg: Registry)
    requires
        static_of(t1, reg) is Ok,
        static_of(t2, reg) is Ok,
    ensures
        (enc(static_of(t1, reg)->Ok_0) == enc(static_of(t2, reg)->Ok_0)) <==> (static_of(t1, reg)
            == static_of(t2, reg)),
        static_of(t1, reg) == static_of(t2, reg) ==> name_of(static_of(t1, reg)->Ok_0) == name_of(
            static_of(t2, reg)->Ok_0,
        ),
{
    if enc(static_of(t1, reg)->Ok_0) == enc(static_of(t2, reg)->Ok_0) {
        lemma_enc_injective(static_of(t1, reg)->Ok_0, static_of(t2, reg)->Ok_0);
    }
}

} // verus!
