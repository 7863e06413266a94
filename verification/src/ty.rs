//! The shape language: a value-level description of the types the registry
//! can project, together with the two structural predicates the projection
//! rules consult (self-containment and sizedness).

use vstd::prelude::*;

verus! {

/// How long a reference is good for. A `Static` reference may be stored
/// indefinitely; a `Scoped` reference is tied to some bounded scope, named
/// by an arbitrary scope token so that two distinct scopes can be told apart.
#[derive(Debug, Clone, Copy, PartialEq, Eq)]
pub enum Lifetime {
    Static,
    Scoped(u32),
}

/// The built-in leaf types: each is already self-contained, so its
/// projection is itself. The atomic wrappers are leaves too; their internal
/// synchronization does not affect self-containment.
#[derive(Debug, Clone, Copy, PartialEq, Eq)]
pub enum Leaf {
    Str,
    Char,
    Bool,
    Usize,
    Isize,
    U8,
    U16,
    U32,
    U64,
    U128,
    I8,
    I16,
    I32,
    I64,
    I128,
    F32,
    F64,
    Unit,
    MemOrdering,
    AtomicBool,
    AtomicU8,
    AtomicU16,
    AtomicU32,
    AtomicU64,
    AtomicI8,
    AtomicI16,
    AtomicI32,
    AtomicI64,
    AtomicIsize,
    AtomicUsize,
    Text,
}

/// A type shape. Every type the registry can speak about falls into exactly
/// one of these mutually exclusive shapes.
#[derive(Debug, PartialEq, Eq)]
pub enum Ty {
    /// A built-in leaf type.
    Leaf(Leaf),
    /// A caller-registered leaf, named by an opaque token. It resolves only
    /// once registered as self-contained.
    Opaque(u64),
    /// A reference to the inner type, with the given lifetime.
    Ref(Lifetime, Box<Ty>),
    /// A reference to a slice of the inner type, with the given lifetime.
    SliceRef(Lifetime, Box<Ty>),
    /// A tuple of the listed component types.
    Tuple(TyList),
    /// An optional value of the inner type.
    Optional(Box<Ty>),
    /// A success-or-error value over the two inner types.
    Fallible(Box<Ty>, Box<Ty>),
    /// A two-armed early-exit control value (break type, continue type).
    EarlyExit(Box<Ty>, Box<Ty>),
    /// An inclusive/exclusive/unbounded range endpoint of the inner type.
    Endpoint(Box<Ty>),
    /// A growable owned sequence of the inner type.
    Sequence(Box<Ty>),
    /// An ordered map from the first inner type to the second.
    OrderedMap(Box<Ty>, Box<Ty>),
    /// An ordered set of the inner type.
    OrderedSet(Box<Ty>),
    /// A priority queue of the inner type.
    PriorityQueue(Box<Ty>),
    /// A doubly-linked list of the inner type.
    LinkedList(Box<Ty>),
    /// A double-ended queue of the inner type.
    Deque(Box<Ty>),
    /// A raw function-pointer type: deliberately covered by no rule, so it
    /// exercises the rejection path.
    FnPtr,
}

/// The component list of a tuple shape.
#[derive(Debug, PartialEq, Eq)]
pub enum TyList {
    Nil,
    Cons(Box<Ty>, Box<TyList>),
}

/// The number of components in a tuple's component list.
pub open spec fn list_len(l: TyList) -> nat
    decreases l,
{
    match l {
        TyList::Nil => 0,
        TyList::Cons(_, tl) => 1 + list_len(*tl),
    }
}

/// The component list as a sequence, for stating componentwise facts.
pub open spec fn list_seq(l: TyList) -> Seq<Ty>
    decreases l,
{
    match l {
        TyList::Nil => Seq::empty(),
        TyList::Cons(hd, tl) => seq![*hd] + list_seq(*tl),
    }
}

/// A shape is self-contained when it holds no scoped reference anywhere:
/// its values own their data or hold only `Static` references, so they are
/// safe to keep beyond any particular scope. An `Opaque` leaf counts as
/// self-contained by the registration contract: whoever registers it
/// vouches for that, since an opaque token cannot be inspected here.
pub open spec fn is_self_contained(t: Ty) -> bool
    decreases t, 1int,
{
    match t {
        Ty::Leaf(_) => true,
        Ty::Opaque(_) => true,
        Ty::Ref(lt, inner) => lt == Lifetime::Static && is_self_contained(*inner),
        Ty::SliceRef(lt, inner) => lt == Lifetime::Static && is_self_contained(*inner),
        Ty::Tuple(ts) => list_all_self_contained(ts),
        Ty::Optional(inner) => is_self_contained(*inner),
        Ty::Fallible(a, b) => is_self_contained(*a) && is_self_contained(*b),
        Ty::EarlyExit(a, b) => is_self_contained(*a) && is_self_contained(*b),
        Ty::Endpoint(inner) => is_self_contained(*inner),
        Ty::Sequence(inner) => is_self_contained(*inner),
        Ty::OrderedMap(k, v) => is_self_contained(*k) && is_self_contained(*v),
        Ty::OrderedSet(inner) => is_self_contained(*inner),
        Ty::PriorityQueue(inner) => is_self_contained(*inner),
        Ty::LinkedList(inner) => is_self_contained(*inner),
        Ty::Deque(inner) => is_self_contained(*inner),
        Ty::FnPtr => true,
    }
}

/// Every component of the list is self-contained.
pub open spec fn list_all_self_contained(l: TyList) -> bool
    decreases l, 0int,
{
    match l {
        TyList::Nil => true,
        TyList::Cons(hd, tl) => is_self_contained(*hd) && list_all_self_contained(*tl),
    }
}

/// Whether values of the shape have a size known up front. Only the bare
/// text slice lacks one; every composite shape the registry builds is sized
/// whenever its projection exists, because the rules refuse unsized
/// components.
pub open spec fn is_sized(t: Ty) -> bool {
    t != Ty::Leaf(Leaf::Str)
}

impl Ty {
    /// Builds a tuple shape from its components, given in order.
    pub fn tuple_of(items: Vec<Ty>) -> (r: Ty)
        ensures
            r is Tuple,
            list_seq(r->Tuple_0) == items@,
    {
        let ghost orig = items@;
        let mut items = items;
        let mut acc = TyList::Nil;
        proof {
            assert(list_seq(acc) =~= orig.subrange(items@.len() as int, orig.len() as int));
        }
        while items.len() > 0
            invariant
                items@.len() <= orig.len(),
                forall|i: int| 0 <= i < items@.len() ==> items@[i] == orig[i],
                list_seq(acc) == orig.subrange(items@.len() as int, orig.len() as int),
            decreases items@.len(),
        {
            let ghost k = items@.len() as int;
            let t = match items.pop() {
                Some(t) => t,
                None => {
                    proof {
                        assert(false);
                    }
                    Ty::FnPtr
                },
            };
            proof {
                assert(t == orig[k - 1]);
            }
            acc = TyList::Cons(Box::new(t), Box::new(acc));
            proof {
                assert(list_seq(acc) =~= orig.subrange(k - 1, orig.len() as int));
            }
        }
        proof {
            assert(list_seq(acc) =~= orig);
        }
        Ty::Tuple(acc)
    }
}

/// Runtime form of [`is_sized`].
pub fn sized_check(t: &Ty) -> (r: bool)
    ensures
        r == is_sized(*t),
{
    match t {
        Ty::Leaf(Leaf::Str) => false,
        _ => true,
    }
}

} // verus!
