//! The identity query layer: a stable identifier and a display name for the
//! canonical counterpart of a shape. Both are computed from the counterpart,
//! never from the source shape, so two source shapes with the same
//! counterpart report the same identity.
//!
//! The identifier is a canonical byte encoding of the shape tree. It is
//! injective — equal encodings mean equal shapes — which is what makes it an
//! identifier rather than a mere digest; the proof is in this module. An
//! identifier depends on the counterpart shape alone, never on the registry
//! or the run, so it may be stored and compared across program versions for
//! as long as the encoding itself is kept unchanged. The display name is
//! for humans and makes no uniqueness promise.

use vstd::bytes::spec_u32_to_le_bytes;
use vstd::bytes::spec_u64_to_le_bytes;
use vstd::bytes::u32_to_le_bytes;
use vstd::bytes::u64_to_le_bytes;
use vstd::prelude::*;
use vstd::string::StringExecFns;

use crate::project::static_of;
use crate::project::ProjectionError;
use crate::registry::Registry;
use crate::ty::list_len;
use crate::ty::Leaf;
use crate::ty::Lifetime;
use crate::ty::Ty;
use crate::ty::TyList;

verus! {

pub const TAG_LEAF: u8 = 1;

pub const TAG_OPAQUE: u8 = 2;

pub const TAG_REF: u8 = 3;

pub const TAG_SLICE_REF: u8 = 4;

pub const TAG_TUPLE: u8 = 5;

pub const TAG_OPTIONAL: u8 = 6;

pub const TAG_FALLIBLE: u8 = 7;

pub const TAG_EARLY_EXIT: u8 = 8;

pub const TAG_ENDPOINT: u8 = 9;

pub const TAG_SEQUENCE: u8 = 10;

pub const TAG_ORDERED_MAP: u8 = 11;

pub const TAG_ORDERED_SET: u8 = 12;

pub const TAG_PRIORITY_QUEUE: u8 = 13;

pub const TAG_LINKED_LIST: u8 = 14;

pub const TAG_DEQUE: u8 = 15;

pub const TAG_FN_PTR: u8 = 16;

pub const TAG_LIST_NIL: u8 = 17;

pub const TAG_LIST_CONS: u8 = 18;

/// The code byte of each built-in leaf. Distinct per leaf.
pub open spec fn leaf_code(l: Leaf) -> u8 {
    match l {
        Leaf::Str => 0,
        Leaf::Char => 1,
        Leaf::Bool => 2,
        Leaf::Usize => 3,
        Leaf::Isize => 4,
        Leaf::U8 => 5,
        Leaf::U16 => 6,
        Leaf::U32 => 7,
        Leaf::U64 => 8,
        Leaf::U128 => 9,
        Leaf::I8 => 10,
        Leaf::I16 => 11,
        Leaf::I32 => 12,
        Leaf::I64 => 13,
        Leaf::I128 => 14,
        Leaf::F32 => 15,
        Leaf::F64 => 16,
        Leaf::Unit => 17,
        Leaf::MemOrdering => 18,
        Leaf::AtomicBool => 19,
        Leaf::AtomicU8 => 20,
        Leaf::AtomicU16 => 21,
        Leaf::AtomicU32 => 22,
        Leaf::AtomicU64 => 23,
        Leaf::AtomicI8 => 24,
        Leaf::AtomicI16 => 25,
        Leaf::AtomicI32 => 26,
        Leaf::AtomicI64 => 27,
        Leaf::AtomicIsize => 28,
        Leaf::AtomicUsize => 29,
        Leaf::Text => 30,
    }
}

/// The encoding of a lifetime: five bytes, so that every lifetime takes the
/// same room and two encodings can be told apart by their first byte.
pub open spec fn enc_lt(lt: Lifetime) -> Seq<u8> {
    match lt {
        Lifetime::Static => seq![0u8, 0u8, 0u8, 0u8, 0u8],
        Lifetime::Scoped(n) => seq![1u8] + spec_u32_to_le_bytes(n),
    }
}

/// The canonical byte encoding of a shape: one tag byte per node, then the
/// node's payload, then the encodings of its components in order. No node's
/// encoding is a prefix of another's, which is what the injectivity proof
/// below rests on.
pub open spec fn enc(t: Ty) -> Seq<u8>
    decreases t, 1int,
{
    match t {
        Ty::Leaf(l) => seq![TAG_LEAF, leaf_code(l)],
        Ty::Opaque(id) => seq![TAG_OPAQUE] + spec_u64_to_le_bytes(id),
        Ty::Ref(lt, inner) => seq![TAG_REF] + enc_lt(lt) + enc(*inner),
        Ty::SliceRef(lt, inner) => seq![TAG_SLICE_REF] + enc_lt(lt) + enc(*inner),
        Ty::Tuple(ts) => seq![TAG_TUPLE] + enc_list(ts),
        Ty::Optional(inner) => seq![TAG_OPTIONAL] + enc(*inner),
        Ty::Fallible(a, b) => seq![TAG_FALLIBLE] + enc(*a) + enc(*b),
        Ty::EarlyExit(a, b) => seq![TAG_EARLY_EXIT] + enc(*a) + enc(*b),
        Ty::Endpoint(inner) => seq![TAG_ENDPOINT] + enc(*inner),
        Ty::Sequence(inner) => seq![TAG_SEQUENCE] + enc(*inner),
        Ty::OrderedMap(k, v) => seq![TAG_ORDERED_MAP] + enc(*k) + enc(*v),
        Ty::OrderedSet(inner) => seq![TAG_ORDERED_SET] + enc(*inner),
        Ty::PriorityQueue(inner) => seq![TAG_PRIORITY_QUEUE] + enc(*inner),
        Ty::LinkedList(inner) => seq![TAG_LINKED_LIST] + enc(*inner),
        Ty::Deque(inner) => seq![TAG_DEQUE] + enc(*inner),
        Ty::FnPtr => seq![TAG_FN_PTR],
    }
}

/// The encoding of a component list: a cons/nil marker before each
/// position, so the component count is part of the encoding.
pub open spec fn enc_list(l: TyList) -> Seq<u8>
    decreases l, 0int,
{
    match l {
        TyList::Nil => seq![TAG_LIST_NIL],
        TyList::Cons(hd, tl) => seq![TAG_LIST_CONS] + enc(*hd) + enc_list(*tl),
    }
}

/// The display name of a shape, written the way the source language writes
/// the type. Lifetimes are not shown, so shapes differing only in lifetimes
/// share a name — names make no uniqueness promise.
pub open spec fn name_of(t: Ty) -> Seq<char>
    decreases t, 1int,
{
    match t {
        Ty::Leaf(l) => leaf_name(l),
        Ty::Opaque(_) => "opaque"@,
        Ty::Ref(_, inner) => "&"@ + name_of(*inner),
        Ty::SliceRef(_, inner) => "&["@ + name_of(*inner) + "]"@,
        Ty::Tuple(ts) => "("@ + names_of(ts) + (if list_len(ts) == 1 {
            ",)"@
        } else {
            ")"@
        }),
        Ty::Optional(inner) => "Option<"@ + name_of(*inner) + ">"@,
        Ty::Fallible(a, b) => "Result<"@ + name_of(*a) + ", "@ + name_of(*b) + ">"@,
        Ty::EarlyExit(a, b) => "ControlFlow<"@ + name_of(*a) + ", "@ + name_of(*b) + ">"@,
        Ty::Endpoint(inner) => "Bound<"@ + name_of(*inner) + ">"@,
        Ty::Sequence(inner) => "Vec<"@ + name_of(*inner) + ">"@,
        Ty::OrderedMap(k, v) => "BTreeMap<"@ + name_of(*k) + ", "@ + name_of(*v) + ">"@,
        Ty::OrderedSet(inner) => "BTreeSet<"@ + name_of(*inner) + ">"@,
        Ty::PriorityQueue(inner) => "BinaryHeap<"@ + name_of(*inner) + ">"@,
        Ty::LinkedList(inner) => "LinkedList<"@ + name_of(*inner) + ">"@,
        Ty::Deque(inner) => "VecDeque<"@ + name_of(*inner) + ">"@,
        Ty::FnPtr => "fn()"@,
    }
}

/// The component names, separated by a comma and a space.
pub open spec fn names_of(l: TyList) -> Seq<char>
    decreases l, 0int,
{
    match l {
        TyList::Nil => Seq::empty(),
        TyList::Cons(hd, tl) => if *tl is Nil {
            name_of(*hd)
        } else {
            name_of(*hd) + ", "@ + names_of(*tl)
        },
    }
}

/// The display name of each built-in leaf.
pub open spec fn leaf_name(l: Leaf) -> Seq<char> {
    match l {
        Leaf::Str => "str"@,
        Leaf::Char => "char"@,
        Leaf::Bool => "bool"@,
        Leaf::Usize => "usize"@,
        Leaf::Isize => "isize"@,
        Leaf::U8 => "u8"@,
        Leaf::U16 => "u16"@,
        Leaf::U32 => "u32"@,
        Leaf::U64 => "u64"@,
        Leaf::U128 => "u128"@,
        Leaf::I8 => "i8"@,
        Leaf::I16 => "i16"@,
        Leaf::I32 => "i32"@,
        Leaf::I64 => "i64"@,
        Leaf::I128 => "i128"@,
        Leaf::F32 => "f32"@,
        Leaf::F64 => "f64"@,
        Leaf::Unit => "()"@,
        Leaf::MemOrdering => "Ordering"@,
        Leaf::AtomicBool => "AtomicBool"@,
        Leaf::AtomicU8 => "AtomicU8"@,
        Leaf::AtomicU16 => "AtomicU16"@,
        Leaf::AtomicU32 => "AtomicU32"@,
        Leaf::AtomicU64 => "AtomicU64"@,
        Leaf::AtomicI8 => "AtomicI8"@,
        Leaf::AtomicI16 => "AtomicI16"@,
        Leaf::AtomicI32 => "AtomicI32"@,
        Leaf::AtomicI64 => "AtomicI64"@,
        Leaf::AtomicIsize => "AtomicIsize"@,
        Leaf::AtomicUsize => "AtomicUsize"@,
        Leaf::Text => "String"@,
    }
}

/// The code byte of a leaf, at run time.
fn leaf_code_exec(l: &Leaf) -> (r: u8)
    ensures
        r == leaf_code(*l),
{
    match l {
        Leaf::Str => 0,
        Leaf::Char => 1,
        Leaf::Bool => 2,
        Leaf::Usize => 3,
        Leaf::Isize => 4,
        Leaf::U8 => 5,
        Leaf::U16 => 6,
        Leaf::U32 => 7,
        Leaf::U64 => 8,
        Leaf::U128 => 9,
        Leaf::I8 => 10,
        Leaf::I16 => 11,
        Leaf::I32 => 12,
        Leaf::I64 => 13,
        Leaf::I128 => 14,
        Leaf::F32 => 15,
        Leaf::F64 => 16,
        Leaf::Unit => 17,
        Leaf::MemOrdering => 18,
        Leaf::AtomicBool => 19,
        Leaf::AtomicU8 => 20,
        Leaf::AtomicU16 => 21,
        Leaf::AtomicU32 => 22,
        Leaf::AtomicU64 => 23,
        Leaf::AtomicI8 => 24,
        Leaf::AtomicI16 => 25,
        Leaf::AtomicI32 => 26,
        Leaf::AtomicI64 => 27,
        Leaf::AtomicIsize => 28,
        Leaf::AtomicUsize => 29,
        Leaf::Text => 30,
    }
}

/// The display name of a leaf, at run time.
fn leaf_str(l: &Leaf) -> (r: &'static str)
    ensures
        r@ == leaf_name(*l),
{
    match l {
        Leaf::Str => "str",
        Leaf::Char => "char",
        Leaf::Bool => "bool",
        Leaf::Usize => "usize",
        Leaf::Isize => "isize",
        Leaf::U8 => "u8",
        Leaf::U16 => "u16",
        Leaf::U32 => "u32",
        Leaf::U64 => "u64",
        Leaf::U128 => "u128",
        Leaf::I8 => "i8",
        Leaf::I16 => "i16",
        Leaf::I32 => "i32",
        Leaf::I64 => "i64",
        Leaf::I128 => "i128",
        Leaf::F32 => "f32",
        Leaf::F64 => "f64",
        Leaf::Unit => "()",
        Leaf::MemOrdering => "Ordering",
        Leaf::AtomicBool => "AtomicBool",
        Leaf::AtomicU8 => "AtomicU8",
        Leaf::AtomicU16 => "AtomicU16",
        Leaf::AtomicU32 => "AtomicU32",
        Leaf::AtomicU64 => "AtomicU64",
        Leaf::AtomicI8 => "AtomicI8",
        Leaf::AtomicI16 => "AtomicI16",
        Leaf::AtomicI32 => "AtomicI32",
        Leaf::AtomicI64 => "AtomicI64",
        Leaf::AtomicIsize => "AtomicIsize",
        Leaf::AtomicUsize => "AtomicUsize",
        Leaf::Text => "String",
    }
}

/// Appends the encoding of the lifetime.
fn encode_lt_onto(lt: &Lifetime, out: &mut Vec<u8>)
    ensures
        final(out)@ == old(out)@ + enc_lt(*lt),
{
    match lt {
        Lifetime::Static => {
            out.push(0);
            out.push(0);
            out.push(0);
            out.push(0);
            out.push(0);
            proof {
                assert(out@ =~= old(out)@ + enc_lt(Lifetime::Static));
            }
        },
        Lifetime::Scoped(n) => {
            out.push(1);
            let mut bs = u32_to_le_bytes(*n);
            out.append(&mut bs);
            proof {
                assert(out@ =~= old(out)@ + enc_lt(*lt));
            }
        },
    }
}

/// Appends the canonical encoding of the shape.
fn encode_onto(t: &Ty, out: &mut Vec<u8>)
    ensures
        final(out)@ == old(out)@ + enc(*t),
    decreases *t, 1int,
{
    match t {
        Ty::Leaf(l) => {
            out.push(TAG_LEAF);
            out.push(leaf_code_exec(l));
            proof {
                assert(out@ =~= old(out)@ + enc(*t));
            }
        },
        Ty::Opaque(id) => {
            out.push(TAG_OPAQUE);
            let mut bs = u64_to_le_bytes(*id);
            out.append(&mut bs);
            proof {
                assert(out@ =~= old(out)@ + enc(*t));
            }
        },
        Ty::Ref(lt, inner) => {
            out.push(TAG_REF);
            encode_lt_onto(lt, out);
            encode_onto(inner, out);
            proof {
                assert(out@ =~= old(out)@ + enc(*t));
            }
        },
        Ty::SliceRef(lt, inner) => {
            out.push(TAG_SLICE_REF);
            encode_lt_onto(lt, out);
            encode_onto(inner, out);
            proof {
                assert(out@ =~= old(out)@ + enc(*t));
            }
        },
        Ty::Tuple(ts) => {
            out.push(TAG_TUPLE);
            encode_list_onto(ts, out);
            proof {
                assert(out@ =~= old(out)@ + enc(*t));
            }
        },
        Ty::Optional(inner) => {
            out.push(TAG_OPTIONAL);
            encode_onto(inner, out);
            proof {
                assert(out@ =~= old(out)@ + enc(*t));
            }
        },
        Ty::Fallible(a, b) => {
            out.push(TAG_FALLIBLE);
            encode_onto(a, out);
            encode_onto(b, out);
            proof {
                assert(out@ =~= old(out)@ + enc(*t));
            }
        },
        Ty::EarlyExit(a, b) => {
            out.push(TAG_EARLY_EXIT);
            encode_onto(a, out);
            encode_onto(b, out);
            proof {
                assert(out@ =~= old(out)@ + enc(*t));
            }
        },
        Ty::Endpoint(inner) => {
            out.push(TAG_ENDPOINT);
            encode_onto(inner, out);
            proof {
                assert(out@ =~= old(out)@ + enc(*t));
            }
        },
        Ty::Sequence(inner) => {
            out.push(TAG_SEQUENCE);
            encode_onto(inner, out);
            proof {
                assert(out@ =~= old(out)@ + enc(*t));
            }
        },
        Ty::OrderedMap(k, v) => {
            out.push(TAG_ORDERED_MAP);
            encode_onto(k, out);
            encode_onto(v, out);
            proof {
                assert(out@ =~= old(out)@ + enc(*t));
            }
        },
        Ty::OrderedSet(inner) => {
            out.push(TAG_ORDERED_SET);
            encode_onto(inner, out);
            proof {
                assert(out@ =~= old(out)@ + enc(*t));
            }
        },
        Ty::PriorityQueue(inner) => {
            out.push(TAG_PRIORITY_QUEUE);
            encode_onto(inner, out);
            proof {
                assert(out@ =~= old(out)@ + enc(*t));
            }
        },
        Ty::LinkedList(inner) => {
            out.push(TAG_LINKED_LIST);
            encode_onto(inner, out);
            proof {
                assert(out@ =~= old(out)@ + enc(*t));
            }
        },
        Ty::Deque(inner) => {
            out.push(TAG_DEQUE);
            encode_onto(inner, out);
            proof {
                assert(out@ =~= old(out)@ + enc(*t));
            }
        },
        Ty::FnPtr => {
            out.push(TAG_FN_PTR);
            proof {
                assert(out@ =~= old(out)@ + enc(*t));
            }
        },
    }
}

/// Appends the encoding of a component list.
fn encode_list_onto(l: &TyList, out: &mut Vec<u8>)
    ensures
        final(out)@ == old(out)@ + enc_list(*l),
    decreases *l, 0int,
{
    match l {
        TyList::Nil => {
            out.push(TAG_LIST_NIL);
            proof {
                assert(out@ =~= old(out)@ + enc_list(*l));
            }
        },
        TyList::Cons(hd, tl) => {
            out.push(TAG_LIST_CONS);
            encode_onto(hd, out);
            encode_list_onto(tl, out);
            proof {
                assert(out@ =~= old(out)@ + enc_list(*l));
            }
        },
    }
}

/// The canonical encoding of a shape, as a fresh byte vector.
pub fn encode(t: &Ty) -> (r: Vec<u8>)
    ensures
        r@ == enc(*t),
{
    let mut out: Vec<u8> = Vec::new();
    encode_onto(t, &mut out);
    proof {
        assert(out@ =~= enc(*t));
    }
    out
}

/// Appends the display name of the shape.
fn render_onto(t: &Ty, out: &mut String)
    ensures
        final(out)@ == old(out)@ + name_of(*t),
    decreases *t, 1int,
{
    match t {
        Ty::Leaf(l) => {
            out.append(leaf_str(l));
            proof {
                assert(out@ =~= old(out)@ + name_of(*t));
            }
        },
        Ty::Opaque(_) => {
            out.append("opaque");
            proof {
                assert(out@ =~= old(out)@ + name_of(*t));
            }
        },
        Ty::Ref(_, inner) => {
            out.append("&");
            render_onto(inner, out);
            proof {
                assert(out@ =~= old(out)@ + name_of(*t));
            }
        },
        Ty::SliceRef(_, inner) => {
            out.append("&[");
            render_onto(inner, out);
            out.append("]");
            proof {
                assert(out@ =~= old(out)@ + name_of(*t));
            }
        },
        Ty::Tuple(ts) => {
            out.append("(");
            render_list_onto(ts, out);
            if list_is_singleton(ts) {
                out.append(",)");
            } else {
                out.append(")");
            }
            proof {
                assert(out@ =~= old(out)@ + name_of(*t));
            }
        },
        Ty::Optional(inner) => {
            out.append("Option<");
            render_onto(inner, out);
            out.append(">");
            proof {
                assert(out@ =~= old(out)@ + name_of(*t));
            }
        },
        Ty::Fallible(a, b) => {
            out.append("Result<");
            render_onto(a, out);
            out.append(", ");
            render_onto(b, out);
            out.append(">");
            proof {
                assert(out@ =~= old(out)@ + name_of(*t));
            }
        },
        Ty::EarlyExit(a, b) => {
            out.append("ControlFlow<");
            render_onto(a, out);
            out.append(", ");
            render_onto(b, out);
            out.append(">");
            proof {
                assert(out@ =~= old(out)@ + name_of(*t));
            }
        },
        Ty::Endpoint(inner) => {
            out.append("Bound<");
            render_onto(inner, out);
            out.append(">");
            proof {
                assert(out@ =~= old(out)@ + name_of(*t));
            }
        },
        Ty::Sequence(inner) => {
            out.append("Vec<");
            render_onto(inner, out);
            out.append(">");
            proof {
                assert(out@ =~= old(out)@ + name_of(*t));
            }
        },
        Ty::OrderedMap(k, v) => {
            out.append("BTreeMap<");
            render_onto(k, out);
            out.append(", ");
            render_onto(v, out);
            out.append(">");
            proof {
                assert(out@ =~= old(out)@ + name_of(*t));
            }
        },
        Ty::OrderedSet(inner) => {
            out.append("BTreeSet<");
            render_onto(inner, out);
            out.append(">");
            proof {
                assert(out@ =~= old(out)@ + name_of(*t));
            }
        },
        Ty::PriorityQueue(inner) => {
            out.append("BinaryHeap<");
            render_onto(inner, out);
            out.append(">");
            proof {
                assert(out@ =~= old(out)@ + name_of(*t));
            }
        },
        Ty::LinkedList(inner) => {
            out.append("LinkedList<");
            render_onto(inner, out);
            out.append(">");
            proof {
                assert(out@ =~= old(out)@ + name_of(*t));
            }
        },
        Ty::Deque(inner) => {
            out.append("VecDeque<");
            render_onto(inner, out);
            out.append(">");
            proof {
                assert(out@ =~= old(out)@ + name_of(*t));
            }
        },
        Ty::FnPtr => {
            out.append("fn()");
            proof {
                assert(out@ =~= old(out)@ + name_of(*t));
            }
        },
    }
}

/// Whether the component list has exactly one component.
fn list_is_singleton(l: &TyList) -> (r: bool)
    ensures
        r == (list_len(*l) == 1),
{
    proof {
        reveal_with_fuel(list_len, 3);
    }
    match l {
        TyList::Cons(_, tl) => match &**tl {
            TyList::Nil => true,
            TyList::Cons(_, _) => false,
        },
        TyList::Nil => false,
    }
}

/// Appends the component names, separated by a comma and a space.
fn render_list_onto(l: &TyList, out: &mut String)
    ensures
        final(out)@ == old(out)@ + names_of(*l),
    decreases *l, 0int,
{
    match l {
        TyList::Nil => {
            proof {
                assert(out@ =~= old(out)@ + names_of(*l));
            }
        },
        TyList::Cons(hd, tl) => {
            render_onto(hd, out);
            match &**tl {
                TyList::Nil => {
                    proof {
                        assert(out@ =~= old(out)@ + names_of(*l));
                    }
                },
                TyList::Cons(_, _) => {
                    out.append(", ");
                    render_list_onto(tl, out);
                    proof {
                        assert(out@ =~= old(out)@ + names_of(*l));
                    }
                },
            }
        },
    }
}

/// The display name of a shape, as a fresh string.
pub fn render_name(t: &Ty) -> (r: String)
    ensures
        r@ == name_of(*t),
{
    let mut out = String::new();
    render_onto(t, &mut out);
    proof {
        assert(out@ =~= name_of(*t));
    }
    out
}

/// The tag byte that opens the encoding of each shape.
pub open spec fn tag_of(t: Ty) -> u8 {
    match t {
        Ty::Leaf(_) => TAG_LEAF,
        Ty::Opaque(_) => TAG_OPAQUE,
        Ty::Ref(_, _) => TAG_REF,
        Ty::SliceRef(_, _) => TAG_SLICE_REF,
        Ty::Tuple(_) => TAG_TUPLE,
        Ty::Optional(_) => TAG_OPTIONAL,
        Ty::Fallible(_, _) => TAG_FALLIBLE,
        Ty::EarlyExit(_, _) => TAG_EARLY_EXIT,
        Ty::Endpoint(_) => TAG_ENDPOINT,
        Ty::Sequence(_) => TAG_SEQUENCE,
        Ty::OrderedMap(_, _) => TAG_ORDERED_MAP,
        Ty::OrderedSet(_) => TAG_ORDERED_SET,
        Ty::PriorityQueue(_) => TAG_PRIORITY_QUEUE,
        Ty::LinkedList(_) => TAG_LINKED_LIST,
        Ty::Deque(_) => TAG_DEQUE,
        Ty::FnPtr => TAG_FN_PTR,
    }
}

/// The tag byte that opens the encoding of a component list.
pub open spec fn list_tag_of(l: TyList) -> u8 {
    match l {
        TyList::Nil => TAG_LIST_NIL,
        TyList::Cons(_, _) => TAG_LIST_CONS,
    }
}

/// Every encoding opens with its node's tag byte.
proof fn lemma_enc_head(t: Ty)
    ensures
        enc(t).len() >= 1,
        enc(t)[0] == tag_of(t),
{
}

/// Every component-list encoding opens with its marker byte.
proof fn lemma_enc_list_head(l: TyList)
    ensures
        enc_list(l).len() >= 1,
        enc_list(l)[0] == list_tag_of(l),
{
}

/// Splitting equal concatenations at the same offset gives equal halves.
proof fn lemma_concat_split(a1: Seq<u8>, b1: Seq<u8>, a2: Seq<u8>, b2: Seq<u8>)
    requires
        a1 + b1 == a2 + b2,
        a1.len() == a2.len(),
    ensures
        a1 == a2,
        b1 == b2,
{
    assert forall|i: int| 0 <= i < a1.len() implies a1[i] == a2[i] by {
        assert((a1 + b1)[i] == a1[i]);
        assert((a2 + b2)[i] == a2[i]);
    }
    assert(a1 =~= a2);
    assert((a1 + b1).len() == a1.len() + b1.len());
    assert((a2 + b2).len() == a2.len() + b2.len());
    assert(b1.len() == b2.len());
    assert forall|i: int| 0 <= i < b1.len() implies b1[i] == b2[i] by {
        assert((a1 + b1)[a1.len() + i] == b1[i]);
        assert((a2 + b2)[a2.len() + i] == b2[i]);
    }
    assert(b1 =~= b2);
}

/// Distinct leaves have distinct code bytes.
proof fn lemma_leaf_code_inj(a: Leaf, b: Leaf)
    requires
        leaf_code(a) == leaf_code(b),
    ensures
        a == b,
{
}

/// No lifetime encoding is a prefix of another's followed by different
/// bytes: the five bytes pin the lifetime down and leave the rest intact.
proof fn lemma_enc_lt_prefix(a: Lifetime, b: Lifetime, ra: Seq<u8>, rb: Seq<u8>)
    requires
        enc_lt(a) + ra == enc_lt(b) + rb,
    ensures
        a == b,
        ra == rb,
{
    vstd::bytes::lemma_auto_spec_u32_to_from_le_bytes();
    assert(enc_lt(a).len() == 5);
    assert(enc_lt(b).len() == 5);
    lemma_concat_split(enc_lt(a), ra, enc_lt(b), rb);
    match (a, b) {
        (Lifetime::Static, Lifetime::Static) => {
        },
        (Lifetime::Scoped(x), Lifetime::Scoped(y)) => {
            lemma_concat_split(
                seq![1u8],
                spec_u32_to_le_bytes(x),
                seq![1u8],
                spec_u32_to_le_bytes(y),
            );
            assert(vstd::bytes::spec_u32_from_le_bytes(spec_u32_to_le_bytes(x)) == x);
            assert(vstd::bytes::spec_u32_from_le_bytes(spec_u32_to_le_bytes(y)) == y);
        },
        (Lifetime::Static, Lifetime::Scoped(_)) => {
            assert(enc_lt(a)[0] == 0);
            assert(enc_lt(b)[0] == 1);
        },
        (Lifetime::Scoped(_), Lifetime::Static) => {
            assert(enc_lt(a)[0] == 1);
            assert(enc_lt(b)[0] == 0);
        },
    }
}

/// The encoding is a prefix code: wherever two encodings open equal byte
/// streams, they encode the same shape and leave the same remainder.
#[verifier::rlimit(100)]
#[verifier::spinoff_prover]
proof fn lemma_enc_prefix(t1: Ty, t2: Ty, r1: Seq<u8>, r2: Seq<u8>)
    requires
        enc(t1) + r1 == enc(t2) + r2,
    ensures
        t1 == t2,
        r1 == r2,
    decreases t1, 1int,
{
    lemma_enc_head(t1);
    lemma_enc_head(t2);
    assert((enc(t1) + r1)[0] == tag_of(t1));
    assert((enc(t2) + r2)[0] == tag_of(t2));
    assert(tag_of(t1) == tag_of(t2));
    match (t1, t2) {
        (Ty::Leaf(a), Ty::Leaf(b)) => {
            lemma_concat_split(enc(t1), r1, enc(t2), r2);
            assert(enc(t1)[1] == leaf_code(a));
            assert(enc(t2)[1] == leaf_code(b));
            lemma_leaf_code_inj(a, b);
        },
        (Ty::Opaque(x), Ty::Opaque(y)) => {
            vstd::bytes::lemma_auto_spec_u64_to_from_le_bytes();
            assert(enc(t1) + r1 =~= seq![TAG_OPAQUE] + (spec_u64_to_le_bytes(x) + r1));
            assert(enc(t2) + r2 =~= seq![TAG_OPAQUE] + (spec_u64_to_le_bytes(y) + r2));
            lemma_concat_split(
                seq![TAG_OPAQUE],
                spec_u64_to_le_bytes(x) + r1,
                seq![TAG_OPAQUE],
                spec_u64_to_le_bytes(y) + r2,
            );
            lemma_concat_split(spec_u64_to_le_bytes(x), r1, spec_u64_to_le_bytes(y), r2);
            assert(vstd::bytes::spec_u64_from_le_bytes(spec_u64_to_le_bytes(x)) == x);
            assert(vstd::bytes::spec_u64_from_le_bytes(spec_u64_to_le_bytes(y)) == y);
        },
        (Ty::Ref(lt1, i1), Ty::Ref(lt2, i2)) => {
            assert(enc(t1) + r1 =~= seq![TAG_REF] + (enc_lt(lt1) + (enc(*i1) + r1)));
            assert(enc(t2) + r2 =~= seq![TAG_REF] + (enc_lt(lt2) + (enc(*i2) + r2)));
            lemma_concat_split(
                seq![TAG_REF],
                enc_lt(lt1) + (enc(*i1) + r1),
                seq![TAG_REF],
                enc_lt(lt2) + (enc(*i2) + r2),
            );
            lemma_enc_lt_prefix(lt1, lt2, enc(*i1) + r1, enc(*i2) + r2);
            lemma_enc_prefix(*i1, *i2, r1, r2);
        },
        (Ty::SliceRef(lt1, i1), Ty::SliceRef(lt2, i2)) => {
            assert(enc(t1) + r1 =~= seq![TAG_SLICE_REF] + (enc_lt(lt1) + (enc(*i1) + r1)));
            assert(enc(t2) + r2 =~= seq![TAG_SLICE_REF] + (enc_lt(lt2) + (enc(*i2) + r2)));
            lemma_concat_split(
                seq![TAG_SLICE_REF],
                enc_lt(lt1) + (enc(*i1) + r1),
                seq![TAG_SLICE_REF],
                enc_lt(lt2) + (enc(*i2) + r2),
            );
            lemma_enc_lt_prefix(lt1, lt2, enc(*i1) + r1, enc(*i2) + r2);
            lemma_enc_prefix(*i1, *i2, r1, r2);
        },
        (Ty::Tuple(l1), Ty::Tuple(l2)) => {
            assert(enc(t1) + r1 =~= seq![TAG_TUPLE] + (enc_list(l1) + r1));
            assert(enc(t2) + r2 =~= seq![TAG_TUPLE] + (enc_list(l2) + r2));
            lemma_concat_split(seq![TAG_TUPLE], enc_list(l1) + r1, seq![TAG_TUPLE], enc_list(l2) + r2);
            lemma_enc_list_prefix(l1, l2, r1, r2);
        },
        (Ty::Optional(i1), Ty::Optional(i2)) => {
            assert(enc(t1) + r1 =~= seq![TAG_OPTIONAL] + (enc(*i1) + r1));
            assert(enc(t2) + r2 =~= seq![TAG_OPTIONAL] + (enc(*i2) + r2));
            lemma_concat_split(seq![TAG_OPTIONAL], enc(*i1) + r1, seq![TAG_OPTIONAL], enc(*i2) + r2);
            lemma_enc_prefix(*i1, *i2, r1, r2);
        },
        (Ty::Fallible(a1, b1), Ty::Fallible(a2, b2)) => {
            assert(enc(t1) + r1 =~= seq![TAG_FALLIBLE] + (enc(*a1) + (enc(*b1) + r1)));
            assert(enc(t2) + r2 =~= seq![TAG_FALLIBLE] + (enc(*a2) + (enc(*b2) + r2)));
            lemma_concat_split(
                seq![TAG_FALLIBLE],
                enc(*a1) + (enc(*b1) + r1),
                seq![TAG_FALLIBLE],
                enc(*a2) + (enc(*b2) + r2),
            );
            lemma_enc_prefix(*a1, *a2, enc(*b1) + r1, enc(*b2) + r2);
            lemma_enc_prefix(*b1, *b2, r1, r2);
        },
        (Ty::EarlyExit(a1, b1), Ty::EarlyExit(a2, b2)) => {
            assert(enc(t1) + r1 =~= seq![TAG_EARLY_EXIT] + (enc(*a1) + (enc(*b1) + r1)));
            assert(enc(t2) + r2 =~= seq![TAG_EARLY_EXIT] + (enc(*a2) + (enc(*b2) + r2)));
            lemma_concat_split(
                seq![TAG_EARLY_EXIT],
                enc(*a1) + (enc(*b1) + r1),
                seq![TAG_EARLY_EXIT],
                enc(*a2) + (enc(*b2) + r2),
            );
            lemma_enc_prefix(*a1, *a2, enc(*b1) + r1, enc(*b2) + r2);
            lemma_enc_prefix(*b1, *b2, r1, r2);
        },
        (Ty::Endpoint(i1), Ty::Endpoint(i2)) => {
            assert(enc(t1) + r1 =~= seq![TAG_ENDPOINT] + (enc(*i1) + r1));
            assert(enc(t2) + r2 =~= seq![TAG_ENDPOINT] + (enc(*i2) + r2));
            lemma_concat_split(seq![TAG_ENDPOINT], enc(*i1) + r1, seq![TAG_ENDPOINT], enc(*i2) + r2);
            lemma_enc_prefix(*i1, *i2, r1, r2);
        },
        (Ty::Sequence(i1), Ty::Sequence(i2)) => {
            assert(enc(t1) + r1 =~= seq![TAG_SEQUENCE] + (enc(*i1) + r1));
            assert(enc(t2) + r2 =~= seq![TAG_SEQUENCE] + (enc(*i2) + r2));
            lemma_concat_split(seq![TAG_SEQUENCE], enc(*i1) + r1, seq![TAG_SEQUENCE], enc(*i2) + r2);
            lemma_enc_prefix(*i1, *i2, r1, r2);
        },
        (Ty::OrderedMap(a1, b1), Ty::OrderedMap(a2, b2)) => {
            assert(enc(t1) + r1 =~= seq![TAG_ORDERED_MAP] + (enc(*a1) + (enc(*b1) + r1)));
            assert(enc(t2) + r2 =~= seq![TAG_ORDERED_MAP] + (enc(*a2) + (enc(*b2) + r2)));
            lemma_concat_split(
                seq![TAG_ORDERED_MAP],
                enc(*a1) + (enc(*b1) + r1),
                seq![TAG_ORDERED_MAP],
                enc(*a2) + (enc(*b2) + r2),
            );
            lemma_enc_prefix(*a1, *a2, enc(*b1) + r1, enc(*b2) + r2);
            lemma_enc_prefix(*b1, *b2, r1, r2);
        },
        (Ty::OrderedSet(i1), Ty::OrderedSet(i2)) => {
            assert(enc(t1) + r1 =~= seq![TAG_ORDERED_SET] + (enc(*i1) + r1));
            assert(enc(t2) + r2 =~= seq![TAG_ORDERED_SET] + (enc(*i2) + r2));
            lemma_concat_split(
                seq![TAG_ORDERED_SET],
                enc(*i1) + r1,
                seq![TAG_ORDERED_SET],
                enc(*i2) + r2,
            );
            lemma_enc_prefix(*i1, *i2, r1, r2);
        },
        (Ty::PriorityQueue(i1), Ty::PriorityQueue(i2)) => {
            assert(enc(t1) + r1 =~= seq![TAG_PRIORITY_QUEUE] + (enc(*i1) + r1));
            assert(enc(t2) + r2 =~= seq![TAG_PRIORITY_QUEUE] + (enc(*i2) + r2));
            lemma_concat_split(
                seq![TAG_PRIORITY_QUEUE],
                enc(*i1) + r1,
                seq![TAG_PRIORITY_QUEUE],
                enc(*i2) + r2,
            );
            lemma_enc_prefix(*i1, *i2, r1, r2);
        },
        (Ty::LinkedList(i1), Ty::LinkedList(i2)) => {
            assert(enc(t1) + r1 =~= seq![TAG_LINKED_LIST] + (enc(*i1) + r1));
            assert(enc(t2) + r2 =~= seq![TAG_LINKED_LIST] + (enc(*i2) + r2));
            lemma_concat_split(
                seq![TAG_LINKED_LIST],
                enc(*i1) + r1,
                seq![TAG_LINKED_LIST],
                enc(*i2) + r2,
            );
            lemma_enc_prefix(*i1, *i2, r1, r2);
        },
        (Ty::Deque(i1), Ty::Deque(i2)) => {
            assert(enc(t1) + r1 =~= seq![TAG_DEQUE] + (enc(*i1) + r1));
            assert(enc(t2) + r2 =~= seq![TAG_DEQUE] + (enc(*i2) + r2));
            lemma_concat_split(seq![TAG_DEQUE], enc(*i1) + r1, seq![TAG_DEQUE], enc(*i2) + r2);
            lemma_enc_prefix(*i1, *i2, r1, r2);
        },
        (Ty::FnPtr, Ty::FnPtr) => {
            lemma_concat_split(enc(t1), r1, enc(t2), r2);
        },
        _ => {
            assert(false);
        },
    }
}

/// The component-list encoding is a prefix code as well.
proof fn lemma_enc_list_prefix(l1: TyList, l2: TyList, r1: Seq<u8>, r2: Seq<u8>)
    requires
        enc_list(l1) + r1 == enc_list(l2) + r2,
    ensures
        l1 == l2,
        r1 == r2,
    decreases l1, 0int,
{
    lemma_enc_list_head(l1);
    lemma_enc_list_head(l2);
    assert((enc_list(l1) + r1)[0] == list_tag_of(l1));
    assert((enc_list(l2) + r2)[0] == list_tag_of(l2));
    assert(list_tag_of(l1) == list_tag_of(l2));
    match (l1, l2) {
        (TyList::Nil, TyList::Nil) => {
            lemma_concat_split(enc_list(l1), r1, enc_list(l2), r2);
        },
        (TyList::Cons(h1, t1), TyList::Cons(h2, t2)) => {
            assert(enc_list(l1) + r1 =~= seq![TAG_LIST_CONS] + (enc(*h1) + (enc_list(*t1) + r1)));
            assert(enc_list(l2) + r2 =~= seq![TAG_LIST_CONS] + (enc(*h2) + (enc_list(*t2) + r2)));
            lemma_concat_split(
                seq![TAG_LIST_CONS],
                enc(*h1) + (enc_list(*t1) + r1),
                seq![TAG_LIST_CONS],
                enc(*h2) + (enc_list(*t2) + r2),
            );
            lemma_enc_prefix(*h1, *h2, enc_list(*t1) + r1, enc_list(*t2) + r2);
            lemma_enc_list_prefix(*t1, *t2, r1, r2);
        },
        _ => {
            assert(false);
        },
    }
}

/// The encoding is injective: equal identifiers mean equal shapes. This is
/// what turns the byte encoding into a stable identifier — together with
/// determinism of the projection it gives the exact law that two shapes
/// share an identifier precisely when they share a counterpart.
pub proof fn lemma_enc_injective(t1: Ty, t2: Ty)
    requires
        enc(t1) == enc(t2),
    ensures
        t1 == t2,
{
    assert(enc(t1) + Seq::<u8>::empty() =~= enc(t2) + Seq::<u8>::empty());
    lemma_enc_prefix(t1, t2, Seq::empty(), Seq::empty());
}

/// The query surface of the projection registry: for any shape with a
/// resolved projection, a stable identifier and a display name of its
/// canonical self-contained counterpart — computed from the counterpart,
/// never from the source shape.
pub trait Staticize {
    /// The projection this query surface answers for.
    spec fn projection(&self, t: Ty) -> Result<Ty, ProjectionError>;

    /// The stable identifier of the canonical self-contained counterpart of
    /// `t`. Two shapes get equal identifiers exactly when their
    /// counterparts are the same shape (see `lemma_identifier_exact` in the
    /// laws module); a shape with no counterpart gets the error that
    /// resolution gives it.
    fn static_type_id(&self, t: &Ty) -> (r: Result<Vec<u8>, ProjectionError>)
        ensures
            r is Ok <==> self.projection(*t) is Ok,
            r is Ok ==> r->Ok_0@ == enc(self.projection(*t)->Ok_0),
            r is Err ==> r->Err_0 == self.projection(*t)->Err_0,
    ;

    /// The display name of the canonical self-contained counterpart of `t`.
    /// Names make no uniqueness promise; the identifier does.
    fn static_type_name(&self, t: &Ty) -> (r: Result<String, ProjectionError>)
        ensures
            r is Ok <==> self.projection(*t) is Ok,
            r is Ok ==> r->Ok_0@ == name_of(self.projection(*t)->Ok_0),
            r is Err ==> r->Err_0 == self.projection(*t)->Err_0,
    ;
}

impl Staticize for Registry {
    /// A registry answers for exactly the projection its rules define.
    open spec fn projection(&self, t: Ty) -> Result<Ty, ProjectionError> {
        static_of(t, *self)
    }

    fn static_type_id(&self, t: &Ty) -> (r: Result<Vec<u8>, ProjectionError>) {
        match self.resolve(t) {
            Ok(s) => Ok(encode(&s)),
            Err(e) => Err(e),
        }
    }

    fn static_type_name(&self, t: &Ty) -> (r: Result<String, ProjectionError>) {
        match self.resolve(t) {
            Ok(s) => Ok(render_name(&s)),
            Err(e) => Err(e),
        }
    }
}

} // verus!
