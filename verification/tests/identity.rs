use staticize::Leaf;
use staticize::Lifetime;
use staticize::Registry;
use staticize::Staticize;
use staticize::Ty;

fn leaf(l: Leaf) -> Ty {
    Ty::Leaf(l)
}

fn scoped_ref(scope: u32, t: Ty) -> Ty {
    Ty::Ref(Lifetime::Scoped(scope), Box::new(t))
}

fn static_ref(t: Ty) -> Ty {
    Ty::Ref(Lifetime::Static, Box::new(t))
}

#[test]
fn differently_scoped_refs_share_identifier_and_name() {
    let reg = Registry::new();
    let a = scoped_ref(1, leaf(Leaf::Str));
    let b = scoped_ref(2, leaf(Leaf::Str));
    let c = static_ref(leaf(Leaf::Str));
    let id_a = reg.static_type_id(&a).unwrap();
    let id_b = reg.static_type_id(&b).unwrap();
    let id_c = reg.static_type_id(&c).unwrap();
    assert_eq!(id_a, id_b);
    assert_eq!(id_a, id_c);
    let name_a = reg.static_type_name(&a).unwrap();
    let name_b = reg.static_type_name(&b).unwrap();
    assert_eq!(name_a, name_b);
}

#[test]
fn distinct_counterparts_get_distinct_identifiers() {
    let reg = Registry::new();
    let pairs = [
        (leaf(Leaf::U8), leaf(Leaf::U16)),
        (
            Ty::Optional(Box::new(leaf(Leaf::U8))),
            Ty::Optional(Box::new(leaf(Leaf::U16))),
        ),
        (leaf(Leaf::Bool), Ty::Optional(Box::new(leaf(Leaf::Bool)))),
        (Ty::Opaque(1), Ty::Opaque(2)),
        (
            Ty::Sequence(Box::new(leaf(Leaf::U8))),
            Ty::OrderedSet(Box::new(leaf(Leaf::U8))),
        ),
    ];
    let mut reg_mut = Registry::new();
    reg_mut.register_self_contained(1);
    reg_mut.register_self_contained(2);
    for (a, b) in pairs {
        let reg = if matches!(a, Ty::Opaque(_)) { &reg_mut } else { &reg };
        assert_ne!(
            reg.static_type_id(&a).unwrap(),
            reg.static_type_id(&b).unwrap()
        );
    }
}

#[test]
fn identifier_is_stable_across_registries_and_calls() {
    let reg1 = Registry::new();
    let mut reg2 = Registry::new();
    reg2.register_tuple_projection(20);
    let t = Ty::tuple_of(vec![leaf(Leaf::U8), leaf(Leaf::Bool)]);
    let id_a = reg1.static_type_id(&t).unwrap();
    let id_b = reg1.static_type_id(&t).unwrap();
    let id_c = reg2.static_type_id(&t).unwrap();
    assert_eq!(id_a, id_b);
    assert_eq!(id_a, id_c);
}

#[test]
fn leaf_names_match_their_types() {
    let reg = Registry::new();
    let cases = [
        (Leaf::Str, "str"),
        (Leaf::Char, "char"),
        (Leaf::Bool, "bool"),
        (Leaf::Usize, "usize"),
        (Leaf::U8, "u8"),
        (Leaf::I128, "i128"),
        (Leaf::F32, "f32"),
        (Leaf::F64, "f64"),
        (Leaf::Unit, "()"),
        (Leaf::MemOrdering, "Ordering"),
        (Leaf::AtomicBool, "AtomicBool"),
        (Leaf::AtomicUsize, "AtomicUsize"),
        (Leaf::Text, "String"),
    ];
    for (l, expected) in cases {
        assert_eq!(reg.static_type_name(&leaf(l)).unwrap(), expected);
    }
}

#[test]
fn composite_names_render_like_source_types() {
    let reg = Registry::new();
    let cases: [(Ty, &str); 10] = [
        (scoped_ref(1, leaf(Leaf::Str)), "&str"),
        (
            Ty::SliceRef(Lifetime::Scoped(1), Box::new(leaf(Leaf::U8))),
            "&[u8]",
        ),
        (
            Ty::Optional(Box::new(Ty::Sequence(Box::new(leaf(Leaf::U16))))),
            "Option<Vec<u16>>",
        ),
        (
            Ty::Fallible(Box::new(leaf(Leaf::U32)), Box::new(leaf(Leaf::Text))),
            "Result<u32, String>",
        ),
        (
            Ty::EarlyExit(Box::new(leaf(Leaf::Unit)), Box::new(leaf(Leaf::I32))),
            "ControlFlow<(), i32>",
        ),
        (Ty::Endpoint(Box::new(leaf(Leaf::Usize))), "Bound<usize>"),
        (
            Ty::OrderedMap(
                Box::new(leaf(Leaf::U64)),
                Box::new(Ty::Deque(Box::new(leaf(Leaf::Bool)))),
            ),
            "BTreeMap<u64, VecDeque<bool>>",
        ),
        (
            Ty::OrderedSet(Box::new(leaf(Leaf::U128))),
            "BTreeSet<u128>",
        ),
        (
            Ty::PriorityQueue(Box::new(leaf(Leaf::I8))),
            "BinaryHeap<i8>",
        ),
        (
            Ty::LinkedList(Box::new(leaf(Leaf::Char))),
            "LinkedList<char>",
        ),
    ];
    for (t, expected) in cases {
        assert_eq!(reg.static_type_name(&t).unwrap(), expected);
    }
}

#[test]
fn tuple_names_use_source_punctuation() {
    let reg = Registry::new();
    let one = Ty::tuple_of(vec![leaf(Leaf::U8)]);
    assert_eq!(reg.static_type_name(&one).unwrap(), "(u8,)");
    let three = Ty::tuple_of(vec![leaf(Leaf::U8), leaf(Leaf::Bool), leaf(Leaf::Char)]);
    assert_eq!(reg.static_type_name(&three).unwrap(), "(u8, bool, char)");
}

#[test]
fn name_reports_the_counterpart_not_the_source() {
    let reg = Registry::new();
    // the scoped reference inside is renamed by projection before display
    let t = Ty::tuple_of(vec![scoped_ref(1, leaf(Leaf::U8)), leaf(Leaf::Bool)]);
    assert_eq!(reg.static_type_name(&t).unwrap(), "(&u8, bool)");
}

#[test]
fn opaque_leaf_name_is_opaque() {
    let mut reg = Registry::new();
    reg.register_self_contained(42);
    assert_eq!(reg.static_type_name(&Ty::Opaque(42)).unwrap(), "opaque");
}

#[test]
fn identifier_differs_when_only_nesting_differs() {
    let reg = Registry::new();
    // (&u8,) versus &(u8,): same leaves, different structure
    let a = Ty::tuple_of(vec![scoped_ref(1, leaf(Leaf::U8))]);
    let b = scoped_ref(1, Ty::tuple_of(vec![leaf(Leaf::U8)]));
    assert_ne!(
        reg.static_type_id(&a).unwrap(),
        reg.static_type_id(&b).unwrap()
    );
}
