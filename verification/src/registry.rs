//! The registration surface: which tuple arities and which caller-supplied
//! leaves the projection rules cover.

use vstd::prelude::*;

verus! {

/// Tuple arities covered out of the box.
pub const BUILTIN_MAX_TUPLE_ARITY: usize = 16;

/// The projection registry. A fresh registry covers the built-in leaves,
/// references, slice references, tuples of arity 1 through
/// [`BUILTIN_MAX_TUPLE_ARITY`], and the composite shapes; callers extend it
/// with further leaves and further tuple arities.
#[derive(Debug)]
pub struct Registry {
    /// Tuple arities registered beyond the built-in range.
    pub extra_arities: Vec<usize>,
    /// Tokens of caller-registered self-contained leaves.
    pub custom_leaves: Vec<u64>,
}

impl Registry {
    /// The caller-registered leaf tokens.
    pub open spec fn spec_leaves(self) -> Seq<u64> {
        self.custom_leaves@
    }

    /// The tuple arities registered beyond the built-in range.
    pub open spec fn spec_extra_arities(self) -> Seq<usize> {
        self.extra_arities@
    }

    /// The opaque leaf with this token has been registered.
    pub open spec fn spec_leaf_registered(self, id: u64) -> bool {
        self.custom_leaves@.contains(id)
    }

    /// The tuple rule covers arity `k`: either built in (1 through 16) or
    /// registered afterwards.
    pub open spec fn spec_arity_supported(self, k: nat) -> bool {
        (1 <= k && k <= BUILTIN_MAX_TUPLE_ARITY as nat) || (exists|i: int|
            0 <= i < self.extra_arities@.len() && self.extra_arities@[i] as nat == k)
    }

    /// A registry covering exactly the built-in rules.
    pub fn new() -> (r: Self)
        ensures
            r.spec_leaves() == Seq::<u64>::empty(),
            r.spec_extra_arities() == Seq::<usize>::empty(),
    {
        Registry { extra_arities: Vec::new(), custom_leaves: Vec::new() }
    }

    /// Registers the opaque leaf named by `id` as self-contained, so that it
    /// projects to itself from now on. The caller vouches that the leaf it
    /// stands for really is self-contained: that is the registration
    /// contract, and nothing here can check it for an opaque token.
    pub fn register_self_contained(&mut self, id: u64)
        ensures
            final(self).spec_leaves() == old(self).spec_leaves().push(id),
            final(self).spec_extra_arities() == old(self).spec_extra_arities(),
            final(self).spec_leaf_registered(id),
    {
        self.custom_leaves.push(id);
        proof {
            assert(self.custom_leaves@.last() == id);
        }
    }

    /// Registers the tuple rule for one more arity, beyond the built-in
    /// range. Registering an already covered arity is harmless.
    pub fn register_tuple_projection(&mut self, arity: usize)
        ensures
            final(self).spec_extra_arities() == old(self).spec_extra_arities().push(arity),
            final(self).spec_leaves() == old(self).spec_leaves(),
            final(self).spec_arity_supported(arity as nat),
    {
        self.extra_arities.push(arity);
        proof {
            assert(self.extra_arities@.last() == arity);
        }
    }

    /// Whether the opaque leaf named by `id` has been registered.
    pub fn leaf_registered(&self, id: u64) -> (r: bool)
        ensures
            r == self.spec_leaf_registered(id),
    {
        let mut i: usize = 0;
        while i < self.custom_leaves.len()
            invariant
                0 <= i <= self.custom_leaves@.len(),
                forall|j: int| 0 <= j < i ==> self.custom_leaves@[j] != id,
            decreases self.custom_leaves@.len() - i,
        {
            if self.custom_leaves[i] == id {
                return true;
            }
            i += 1;
        }
        false
    }

    /// Whether the tuple rule covers arity `k`.
    pub fn arity_supported(&self, k: usize) -> (r: bool)
        ensures
            r == self.spec_arity_supported(k as nat),
    {
        if 1 <= k && k <= BUILTIN_MAX_TUPLE_ARITY {
            return true;
        }
        let mut i: usize = 0;
        while i < self.extra_arities.len()
            invariant
                0 <= i <= self.extra_arities@.len(),
                forall|j: int| 0 <= j < i ==> self.extra_arities@[j] != k,
            decreases self.extra_arities@.len() - i,
        {
            if self.extra_arities[i] == k {
                return true;
            }
            i += 1;
        }
        false
    }
}

} // verus!
