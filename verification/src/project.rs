//! The projection rule set: the recursive mapping from a shape to its
//! canonical self-contained counterpart, and the runtime resolver proved
//! against it.

use vstd::prelude::*;

use crate::registry::Registry;
use crate::ty::is_sized;
use crate::ty::list_len;
use crate::ty::sized_check;
use crate::ty::Lifetime;
use crate::ty::Ty;
use crate::ty::TyList;

verus! {

/// Why a shape has no projection. There is exactly one error class —
/// an unresolvable projection — split by which rule was missing.
#[derive(Debug, Clone, Copy, PartialEq, Eq)]
pub enum ProjectionError {
    /// The shape is covered by no rule and has no decomposition path.
    UnsupportedShape,
    /// An opaque leaf with this token was named but never registered.
    UnregisteredLeaf(u64),
    /// A tuple of an arity the registry does not cover.
    ArityUnsupported,
    /// A composite rule needs a sized component, but the component's
    /// counterpart is unsized.
    UnsizedComponent,
}

/// The projection rules. `static_of(t, reg)` is the canonical
/// self-contained counterpart of `t` under registry `reg`, or the error
/// naming the missing rule:
///
/// - a leaf is its own counterpart; an opaque leaf only once registered;
/// - a reference projects to a `Static` reference to the component's
///   counterpart, whatever its own lifetime was;
/// - a slice reference likewise, and the component's counterpart must be
///   sized;
/// - a tuple projects componentwise, provided its arity is covered and
///   every component's counterpart is sized;
/// - optionals, success-or-error pairs, early-exit values, endpoints and
///   the containers project componentwise, each component's counterpart
///   sized;
/// - a shape with no rule is refused outright: projecting it to itself
///   could smuggle a scoped reference into a counterpart that must have
///   none.
///
/// In the two-component shapes the first component is projected first, so
/// its error wins when both components fail.
pub open spec fn static_of(t: Ty, reg: Registry) -> Result<Ty, ProjectionError>
    decreases t, 1int,
{
    match t {
        Ty::Leaf(l) => Ok(Ty::Leaf(l)),
        Ty::Opaque(id) => if reg.spec_leaf_registered(id) {
            Ok(Ty::Opaque(id))
        } else {
            Err(ProjectionError::UnregisteredLeaf(id))
        },
        Ty::Ref(_, inner) => match static_of(*inner, reg) {
            Ok(s) => Ok(Ty::Ref(Lifetime::Static, Box::new(s))),
            Err(e) => Err(e),
        },
        Ty::SliceRef(_, inner) => match static_of(*inner, reg) {
            Ok(s) => if is_sized(s) {
                Ok(Ty::SliceRef(Lifetime::Static, Box::new(s)))
            } else {
                Err(ProjectionError::UnsizedComponent)
            },
            Err(e) => Err(e),
        },
        Ty::Tuple(ts) => if !reg.spec_arity_supported(list_len(ts)) {
            Err(ProjectionError::ArityUnsupported)
        } else {
            match static_of_list(ts, reg) {
                Ok(ss) => Ok(Ty::Tuple(ss)),
                Err(e) => Err(e),
            }
        },
        Ty::Optional(inner) => match static_of(*inner, reg) {
            Ok(s) => if is_sized(s) {
                Ok(Ty::Optional(Box::new(s)))
            } else {
                Err(ProjectionError::UnsizedComponent)
            },
            Err(e) => Err(e),
        },
        Ty::Fallible(a, b) => match static_of(*a, reg) {
            Ok(sa) => if !is_sized(sa) {
                Err(ProjectionError::UnsizedComponent)
            } else {
                match static_of(*b, reg) {
                    Ok(sb) => if !is_sized(sb) {
                        Err(ProjectionError::UnsizedComponent)
                    } else {
                        Ok(Ty::Fallible(Box::new(sa), Box::new(sb)))
                    },
                    Err(e) => Err(e),
                }
            },
            Err(e) => Err(e),
        },
        Ty::EarlyExit(a, b) => match static_of(*a, reg) {
            Ok(sa) => if !is_sized(sa) {
                Err(ProjectionError::UnsizedComponent)
            } else {
                match static_of(*b, reg) {
                    Ok(sb) => if !is_sized(sb) {
                        Err(ProjectionError::UnsizedComponent)
                    } else {
                        Ok(Ty::EarlyExit(Box::new(sa), Box::new(sb)))
                    },
                    Err(e) => Err(e),
                }
            },
            Err(e) => Err(e),
        },
        Ty::Endpoint(inner) => match static_of(*inner, reg) {
            Ok(s) => if is_sized(s) {
                Ok(Ty::Endpoint(Box::new(s)))
            } else {
                Err(ProjectionError::UnsizedComponent)
            },
            Err(e) => Err(e),
        },
        Ty::Sequence(inner) => match static_of(*inner, reg) {
            Ok(s) => if is_sized(s) {
                Ok(Ty::Sequence(Box::new(s)))
            } else {
                Err(ProjectionError::UnsizedComponent)
            },
            Err(e) => Err(e),
        },
        Ty::OrderedMap(k, v) => match static_of(*k, reg) {
            Ok(sk) => if !is_sized(sk) {
                Err(ProjectionError::UnsizedComponent)
            } else {
                match static_of(*v, reg) {
                    Ok(sv) => if !is_sized(sv) {
                        Err(ProjectionError::UnsizedComponent)
                    } else {
                        Ok(Ty::OrderedMap(Box::new(sk), Box::new(sv)))
                    },
                    Err(e) => Err(e),
                }
            },
            Err(e) => Err(e),
        },
        Ty::OrderedSet(inner) => match static_of(*inner, reg) {
            Ok(s) => if is_sized(s) {
                Ok(Ty::OrderedSet(Box::new(s)))
            } else {
                Err(ProjectionError::UnsizedComponent)
            },
            Err(e) => Err(e),
        },
        Ty::PriorityQueue(inner) => match static_of(*inner, reg) {
            Ok(s) => if is_sized(s) {
                Ok(Ty::PriorityQueue(Box::new(s)))
            } else {
                Err(ProjectionError::UnsizedComponent)
            },
            Err(e) => Err(e),
        },
        Ty::LinkedList(inner) => match static_of(*inner, reg) {
            Ok(s) => if is_sized(s) {
                Ok(Ty::LinkedList(Box::new(s)))
            } else {
                Err(ProjectionError::UnsizedComponent)
            },
            Err(e) => Err(e),
        },
        Ty::Deque(inner) => match static_of(*inner, reg) {
            Ok(s) => if is_sized(s) {
                Ok(Ty::Deque(Box::new(s)))
            } else {
                Err(ProjectionError::UnsizedComponent)
            },
            Err(e) => Err(e),
        },
        Ty::FnPtr => Err(ProjectionError::UnsupportedShape),
    }
}

/// Componentwise projection of a tuple's component list: each component's
/// counterpart, in order, every one of them required to be sized.
pub open spec fn static_of_list(l: TyList, reg: Registry) -> Result<TyList, ProjectionError>
    decreases l, 0int,
{
    match l {
        TyList::Nil => Ok(TyList::Nil),
        TyList::Cons(hd, tl) => match static_of(*hd, reg) {
            Ok(s) => if !is_sized(s) {
                Err(ProjectionError::UnsizedComponent)
            } else {
                match static_of_list(*tl, reg) {
                    Ok(ss) => Ok(TyList::Cons(Box::new(s), Box::new(ss))),
                    Err(e) => Err(e),
                }
            },
            Err(e) => Err(e),
        },
    }
}

impl Registry {
    /// Resolves the canonical self-contained counterpart of `t`, exactly as
    /// the projection rules define it.
    pub fn resolve(&self, t: &Ty) -> (r: Result<Ty, ProjectionError>)
        ensures
            r == static_of(*t, *self),
        decreases *t, 1int,
    {
        match t {
            Ty::Leaf(l) => Ok(Ty::Leaf(*l)),
            Ty::Opaque(id) => if self.leaf_registered(*id) {
                Ok(Ty::Opaque(*id))
            } else {
                Err(ProjectionError::UnregisteredLeaf(*id))
            },
            Ty::Ref(_, inner) => match self.resolve(inner) {
                Ok(s) => Ok(Ty::Ref(Lifetime::Static, Box::new(s))),
                Err(e) => Err(e),
            },
            Ty::SliceRef(_, inner) => match self.resolve(inner) {
                Ok(s) => if sized_check(&s) {
                    Ok(Ty::SliceRef(Lifetime::Static, Box::new(s)))
                } else {
                    Err(ProjectionError::UnsizedComponent)
                },
                Err(e) => Err(e),
            },
            Ty::Tuple(ts) => if !self.list_arity_supported(ts) {
                Err(ProjectionError::ArityUnsupported)
            } else {
                match self.resolve_list(ts) {
                    Ok(ss) => Ok(Ty::Tuple(ss)),
                    Err(e) => Err(e),
                }
            },
            Ty::Optional(inner) => match self.resolve(inner) {
                Ok(s) => if sized_check(&s) {
                    Ok(Ty::Optional(Box::new(s)))
                } else {
                    Err(ProjectionError::UnsizedComponent)
                },
                Err(e) => Err(e),
            },
            Ty::Fallible(a, b) => match self.resolve(a) {
                Ok(sa) => if !sized_check(&sa) {
                    Err(ProjectionError::UnsizedComponent)
                } else {
                    match self.resolve(b) {
                        Ok(sb) => if !sized_check(&sb) {
                            Err(ProjectionError::UnsizedComponent)
                        } else {
                            Ok(Ty::Fallible(Box::new(sa), Box::new(sb)))
                        },
                        Err(e) => Err(e),
                    }
                },
                Err(e) => Err(e),
            },
            Ty::EarlyExit(a, b) => match self.resolve(a) {
                Ok(sa) => if !sized_check(&sa) {
                    Err(ProjectionError::UnsizedComponent)
                } else {
                    match self.resolve(b) {
                        Ok(sb) => if !sized_check(&sb) {
                            Err(ProjectionError::UnsizedComponent)
                        } else {
                            Ok(Ty::EarlyExit(Box::new(sa), Box::new(sb)))
                        },
                        Err(e) => Err(e),
                    }
                },
                Err(e) => Err(e),
            },
            Ty::Endpoint(inner) => match self.resolve(inner) {
                Ok(s) => if sized_check(&s) {
                    Ok(Ty::Endpoint(Box::new(s)))
                } else {
                    Err(ProjectionError::UnsizedComponent)
                },
                Err(e) => Err(e),
            },
            Ty::Sequence(inner) => match self.resolve(inner) {
                Ok(s) => if sized_check(&s) {
                    Ok(Ty::Sequence(Box::new(s)))
                } else {
                    Err(ProjectionError::UnsizedComponent)
                },
                Err(e) => Err(e),
            },
            Ty::OrderedMap(k, v) => match self.resolve(k) {
                Ok(sk) => if !sized_check(&sk) {
                    Err(ProjectionError::UnsizedComponent)
                } else {
                    match self.resolve(v) {
                        Ok(sv) => if !sized_check(&sv) {
                            Err(ProjectionError::UnsizedComponent)
                        } else {
                            Ok(Ty::OrderedMap(Box::new(sk), Box::new(sv)))
                        },
                        Err(e) => Err(e),
                    }
                },
                Err(e) => Err(e),
            },
            Ty::OrderedSet(inner) => match self.resolve(inner) {
                Ok(s) => if sized_check(&s) {
                    Ok(Ty::OrderedSet(Box::new(s)))
                } else {
                    Err(ProjectionError::UnsizedComponent)
                },
                Err(e) => Err(e),
            },
            Ty::PriorityQueue(inner) => match self.resolve(inner) {
                Ok(s) => if sized_check(&s) {
                    Ok(Ty::PriorityQueue(Box::new(s)))
                } else {
                    Err(ProjectionError::UnsizedComponent)
                },
                Err(e) => Err(e),
            },
            Ty::LinkedList(inner) => match self.resolve(inner) {
                Ok(s) => if sized_check(&s) {
                    Ok(Ty::LinkedList(Box::new(s)))
                } else {
                    Err(ProjectionError::UnsizedComponent)
                },
                Err(e) => Err(e),
            },
            Ty::Deque(inner) => match self.resolve(inner) {
                Ok(s) => if sized_check(&s) {
                    Ok(Ty::Deque(Box::new(s)))
                } else {
                    Err(ProjectionError::UnsizedComponent)
                },
                Err(e) => Err(e),
            },
            Ty::FnPtr => Err(ProjectionError::UnsupportedShape),
        }
    }

    /// Componentwise resolution of a tuple's component list.
    fn resolve_list(&self, l: &TyList) -> (r: Result<TyList, ProjectionError>)
        ensures
            r == static_of_list(*l, *self),
        decreases *l, 0int,
    {
        match l {
            TyList::Nil => Ok(TyList::Nil),
            TyList::Cons(hd, tl) => match self.resolve(hd) {
                Ok(s) => if !sized_check(&s) {
                    Err(ProjectionError::UnsizedComponent)
                } else {
                    match self.resolve_list(tl) {
                        Ok(ss) => Ok(TyList::Cons(Box::new(s), Box::new(ss))),
                        Err(e) => Err(e),
                    }
                },
                Err(e) => Err(e),
            },
        }
    }

    /// The arity of the component list, when it fits the machine word that
    /// registered arities are drawn from.
    fn list_arity(l: &TyList) -> (r: Option<usize>)
        ensures
            match r {
                Some(n) => n as nat == list_len(*l),
                None => list_len(*l) > usize::MAX as nat,
            },
        decreases *l,
    {
        match l {
            TyList::Nil => Some(0),
            TyList::Cons(_, tl) => match Self::list_arity(tl) {
                Some(n) => if n == usize::MAX {
                    None
                } else {
                    Some(n + 1)
                },
                None => None,
            },
        }
    }

    /// Whether the tuple rule covers the arity of this component list.
    fn list_arity_supported(&self, l: &TyList) -> (r: bool)
        ensures
            r == self.spec_arity_supported(list_len(*l)),
    {
        match Self::list_arity(l) {
            Some(n) => self.arity_supported(n),
            None => {
                // An arity beyond the machine word is covered by no rule:
                // registered arities are machine words themselves.
                proof {
                    assert(!self.spec_arity_supported(list_len(*l)));
                }
                false
            },
        }
    }
}

} // verus!
