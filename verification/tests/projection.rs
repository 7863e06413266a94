use staticize::Leaf;
use staticize::Lifetime;
use staticize::ProjectionError;
use staticize::Registry;
use staticize::Staticize;
use staticize::Ty;
use staticize::TyList;
use staticize::BUILTIN_MAX_TUPLE_ARITY;

fn leaf(l: Leaf) -> Ty {
    Ty::Leaf(l)
}

fn scoped_ref(scope: u32, t: Ty) -> Ty {
    Ty::Ref(Lifetime::Scoped(scope), Box::new(t))
}

fn static_ref(t: Ty) -> Ty {
    Ty::Ref(Lifetime::Static, Box::new(t))
}

fn tuple_n(n: usize) -> Ty {
    let mut items = Vec::new();
    for _ in 0..n {
        items.push(leaf(Leaf::U8));
    }
    Ty::tuple_of(items)
}

const ALL_LEAVES: [Leaf; 31] = [
    Leaf::Str,
    Leaf::Char,
    Leaf::Bool,
    Leaf::Usize,
    Leaf::Isize,
    Leaf::U8,
    Leaf::U16,
    Leaf::U32,
    Leaf::U64,
    Leaf::U128,
    Leaf::I8,
    Leaf::I16,
    Leaf::I32,
    Leaf::I64,
    Leaf::I128,
    Leaf::F32,
    Leaf::F64,
    Leaf::Unit,
    Leaf::MemOrdering,
    Leaf::AtomicBool,
    Leaf::AtomicU8,
    Leaf::AtomicU16,
    Leaf::AtomicU32,
    Leaf::AtomicU64,
    Leaf::AtomicI8,
    Leaf::AtomicI16,
    Leaf::AtomicI32,
    Leaf::AtomicI64,
    Leaf::AtomicIsize,
    Leaf::AtomicUsize,
    Leaf::Text,
];

#[test]
fn every_leaf_projects_to_itself() {
    let reg = Registry::new();
    for l in ALL_LEAVES {
        assert_eq!(reg.resolve(&leaf(l)), Ok(leaf(l)));
    }
}

#[test]
fn every_leaf_id_is_its_counterpart_id() {
    let reg = Registry::new();
    for l in ALL_LEAVES {
        let counterpart = reg.resolve(&leaf(l)).unwrap();
        assert_eq!(reg.static_type_id(&leaf(l)), reg.static_type_id(&counterpart));
    }
}

#[test]
fn reference_distributes_over_projection() {
    let reg = Registry::new();
    assert_eq!(
        reg.resolve(&scoped_ref(1, leaf(Leaf::I32))),
        Ok(static_ref(leaf(Leaf::I32)))
    );
}

#[test]
fn scoped_ref_id_equals_static_ref_id() {
    let reg = Registry::new();
    let via_scoped = reg.static_type_id(&scoped_ref(1, leaf(Leaf::I32))).unwrap();
    let direct = reg.static_type_id(&static_ref(leaf(Leaf::I32))).unwrap();
    assert_eq!(via_scoped, direct);
}

#[test]
fn nested_reference_becomes_static_throughout() {
    let reg = Registry::new();
    let t = scoped_ref(3, scoped_ref(4, leaf(Leaf::Bool)));
    assert_eq!(reg.resolve(&t), Ok(static_ref(static_ref(leaf(Leaf::Bool)))));
}

#[test]
fn tuple_arity_boundaries_resolve() {
    let reg = Registry::new();
    for n in [1, 2, 3, BUILTIN_MAX_TUPLE_ARITY] {
        assert_eq!(reg.resolve(&tuple_n(n)), Ok(tuple_n(n)));
    }
}

#[test]
fn tuple_of_three_projects_componentwise() {
    let reg = Registry::new();
    let t = Ty::tuple_of(vec![
        scoped_ref(1, leaf(Leaf::U8)),
        leaf(Leaf::Bool),
        scoped_ref(2, leaf(Leaf::Char)),
    ]);
    let expected = Ty::tuple_of(vec![
        static_ref(leaf(Leaf::U8)),
        leaf(Leaf::Bool),
        static_ref(leaf(Leaf::Char)),
    ]);
    assert_eq!(reg.resolve(&t), Ok(expected));
}

#[test]
fn tuple_arity_seventeen_rejected_until_registered() {
    let mut reg = Registry::new();
    let t = tuple_n(17);
    assert_eq!(reg.resolve(&t), Err(ProjectionError::ArityUnsupported));
    reg.register_tuple_projection(17);
    assert_eq!(reg.resolve(&t), Ok(tuple_n(17)));
    // the registration covers exactly the named arity
    assert_eq!(reg.resolve(&tuple_n(18)), Err(ProjectionError::ArityUnsupported));
}

#[test]
fn empty_tuple_shape_rejected() {
    let reg = Registry::new();
    assert_eq!(
        reg.resolve(&Ty::Tuple(TyList::Nil)),
        Err(ProjectionError::ArityUnsupported)
    );
}

#[test]
fn optional_slice_resolves_to_static_sequence_view() {
    let reg = Registry::new();
    let t = Ty::Optional(Box::new(Ty::SliceRef(
        Lifetime::Scoped(1),
        Box::new(leaf(Leaf::U8)),
    )));
    let expected = Ty::Optional(Box::new(Ty::SliceRef(
        Lifetime::Static,
        Box::new(leaf(Leaf::U8)),
    )));
    assert_eq!(reg.resolve(&t), Ok(expected));
}

#[test]
fn optional_slice_id_differs_from_plain_optional() {
    let reg = Registry::new();
    let slice_opt = Ty::Optional(Box::new(Ty::SliceRef(
        Lifetime::Scoped(1),
        Box::new(leaf(Leaf::U8)),
    )));
    let plain_opt = Ty::Optional(Box::new(leaf(Leaf::U8)));
    assert_ne!(
        reg.static_type_id(&slice_opt).unwrap(),
        reg.static_type_id(&plain_opt).unwrap()
    );
}

#[test]
fn composite_shapes_project_componentwise() {
    let reg = Registry::new();
    let t = Ty::Fallible(
        Box::new(scoped_ref(1, leaf(Leaf::U32))),
        Box::new(Ty::Sequence(Box::new(leaf(Leaf::Text)))),
    );
    let expected = Ty::Fallible(
        Box::new(static_ref(leaf(Leaf::U32))),
        Box::new(Ty::Sequence(Box::new(leaf(Leaf::Text)))),
    );
    assert_eq!(reg.resolve(&t), Ok(expected));

    let t = Ty::EarlyExit(Box::new(leaf(Leaf::Unit)), Box::new(scoped_ref(9, leaf(Leaf::I64))));
    let expected = Ty::EarlyExit(Box::new(leaf(Leaf::Unit)), Box::new(static_ref(leaf(Leaf::I64))));
    assert_eq!(reg.resolve(&t), Ok(expected));

    let t = Ty::OrderedMap(Box::new(leaf(Leaf::U64)), Box::new(Ty::Deque(Box::new(leaf(Leaf::Bool)))));
    let expected = Ty::OrderedMap(
        Box::new(leaf(Leaf::U64)),
        Box::new(Ty::Deque(Box::new(leaf(Leaf::Bool)))),
    );
    assert_eq!(reg.resolve(&t), Ok(expected));

    let t = Ty::Endpoint(Box::new(scoped_ref(2, leaf(Leaf::Usize))));
    let expected = Ty::Endpoint(Box::new(static_ref(leaf(Leaf::Usize))));
    assert_eq!(reg.resolve(&t), Ok(expected));

    for (t, expected) in [
        (
            Ty::OrderedSet(Box::new(scoped_ref(1, leaf(Leaf::U128)))),
            Ty::OrderedSet(Box::new(static_ref(leaf(Leaf::U128)))),
        ),
        (
            Ty::PriorityQueue(Box::new(scoped_ref(1, leaf(Leaf::I8)))),
            Ty::PriorityQueue(Box::new(static_ref(leaf(Leaf::I8)))),
        ),
        (
            Ty::LinkedList(Box::new(scoped_ref(1, leaf(Leaf::Char)))),
            Ty::LinkedList(Box::new(static_ref(leaf(Leaf::Char)))),
        ),
    ] {
        assert_eq!(reg.resolve(&t), Ok(expected));
    }
}

#[test]
fn projection_is_idempotent_on_a_nested_shape() {
    let reg = Registry::new();
    let t = Ty::Optional(Box::new(Ty::Fallible(
        Box::new(scoped_ref(1, leaf(Leaf::Str))),
        Box::new(Ty::tuple_of(vec![leaf(Leaf::U8), scoped_ref(2, leaf(Leaf::Bool))])),
    )));
    let once = reg.resolve(&t).unwrap();
    let twice = reg.resolve(&once).unwrap();
    assert_eq!(once, twice);
    assert_eq!(reg.static_type_id(&t), reg.static_type_id(&once));
}

#[test]
fn function_pointer_shape_rejected() {
    let reg = Registry::new();
    assert_eq!(reg.resolve(&Ty::FnPtr), Err(ProjectionError::UnsupportedShape));
    assert_eq!(
        reg.static_type_id(&Ty::FnPtr),
        Err(ProjectionError::UnsupportedShape)
    );
    assert_eq!(
        reg.static_type_name(&Ty::FnPtr),
        Err(ProjectionError::UnsupportedShape)
    );
}

#[test]
fn rejection_reaches_through_composites() {
    let reg = Registry::new();
    let t = Ty::Optional(Box::new(Ty::FnPtr));
    assert_eq!(reg.resolve(&t), Err(ProjectionError::UnsupportedShape));
    let t = Ty::tuple_of(vec![leaf(Leaf::U8), Ty::FnPtr]);
    assert_eq!(reg.resolve(&t), Err(ProjectionError::UnsupportedShape));
}

#[test]
fn first_component_error_wins() {
    let reg = Registry::new();
    let t = Ty::Fallible(Box::new(Ty::FnPtr), Box::new(Ty::Opaque(3)));
    assert_eq!(reg.resolve(&t), Err(ProjectionError::UnsupportedShape));
    let t = Ty::Fallible(Box::new(Ty::Opaque(3)), Box::new(Ty::FnPtr));
    assert_eq!(reg.resolve(&t), Err(ProjectionError::UnregisteredLeaf(3)));
}

#[test]
fn opaque_leaf_requires_registration() {
    let mut reg = Registry::new();
    assert_eq!(
        reg.resolve(&Ty::Opaque(9)),
        Err(ProjectionError::UnregisteredLeaf(9))
    );
    reg.register_self_contained(9);
    assert_eq!(reg.resolve(&Ty::Opaque(9)), Ok(Ty::Opaque(9)));
    // other tokens stay unregistered
    assert_eq!(
        reg.resolve(&Ty::Opaque(10)),
        Err(ProjectionError::UnregisteredLeaf(10))
    );
}

#[test]
fn unsized_component_is_refused() {
    let reg = Registry::new();
    for t in [
        Ty::Optional(Box::new(leaf(Leaf::Str))),
        Ty::tuple_of(vec![leaf(Leaf::Str)]),
        Ty::SliceRef(Lifetime::Scoped(1), Box::new(leaf(Leaf::Str))),
        Ty::Sequence(Box::new(leaf(Leaf::Str))),
        Ty::Fallible(Box::new(leaf(Leaf::Str)), Box::new(leaf(Leaf::U8))),
        Ty::Fallible(Box::new(leaf(Leaf::U8)), Box::new(leaf(Leaf::Str))),
    ] {
        assert_eq!(reg.resolve(&t), Err(ProjectionError::UnsizedComponent));
    }
}

#[test]
fn reference_to_unsized_leaf_is_fine() {
    let reg = Registry::new();
    assert_eq!(
        reg.resolve(&scoped_ref(1, leaf(Leaf::Str))),
        Ok(static_ref(leaf(Leaf::Str)))
    );
}
