use vstd::prelude::*;
use crate::span::Symbol;

verus! {

broadcast use vstd::std_specs::vec::group_vec_axioms, vstd::seq::group_seq_axioms;

/// Handle of an interned item in a function's constant pool.
#[derive(Clone, Copy, Debug, PartialEq, Eq, Structural)]
pub struct Constant(pub usize);

/// An integer literal: either a machine-word value or an
/// arbitrary-precision value, the latter modeled as a sign and a
/// little-endian sequence of base-2^32 digits.
#[derive(Debug, PartialEq, Eq)]
pub enum Integer {
    Small(i64),
    Big(bool, Vec<u32>),
}

/// One key-value pair inside a map constant.
#[derive(Debug, PartialEq, Eq)]
pub struct ConstantEntry {
    pub key: ConstantItem,
    pub value: ConstantItem,
}

/// A literal value held in the constant pool. Floats are carried as
/// the raw bits of their IEEE-754 encoding; the core never computes
/// with them. Tuples, lists and maps are recursive.
#[derive(Debug, PartialEq, Eq)]
pub enum ConstantItem {
    Integer(Integer),
    Float(u64),
    Bool(bool),
    Atom(Symbol),
    InternedStr(Symbol),
    StringLit(String),
    Bytes(Vec<u8>),
    Bitstring(Vec<u8>, usize),
    Tuple(Vec<ConstantItem>),
    List(Vec<ConstantItem>),
    MapConst(Vec<ConstantEntry>),
}

/// Structural equality of integer literals.
pub open spec fn integer_eq_spec(a: Integer, b: Integer) -> bool {
    match (a, b) {
        (Integer::Small(x), Integer::Small(y)) => x == y,
        (Integer::Big(sx, dx), Integer::Big(sy, dy)) => sx == sy && dx@ == dy@,
        _ => false,
    }
}

/// Structural equality of constant pool items: equality of every
/// scalar field and elementwise equality of the recursive parts.
pub open spec fn const_eq_spec(a: ConstantItem, b: ConstantItem) -> bool
    decreases a,
{
    match (a, b) {
        (ConstantItem::Integer(x), ConstantItem::Integer(y)) => integer_eq_spec(x, y),
        (ConstantItem::Float(x), ConstantItem::Float(y)) => x == y,
        (ConstantItem::Bool(x), ConstantItem::Bool(y)) => x == y,
        (ConstantItem::Atom(x), ConstantItem::Atom(y)) => x == y,
        (ConstantItem::InternedStr(x), ConstantItem::InternedStr(y)) => x == y,
        (ConstantItem::StringLit(x), ConstantItem::StringLit(y)) => x@ == y@,
        (ConstantItem::Bytes(x), ConstantItem::Bytes(y)) => x@ == y@,
        (ConstantItem::Bitstring(x, nx), ConstantItem::Bitstring(y, ny)) => x@ == y@ && nx == ny,
        (ConstantItem::Tuple(xs), ConstantItem::Tuple(ys)) => const_seq_eq(xs@, ys@),
        (ConstantItem::List(xs), ConstantItem::List(ys)) => const_seq_eq(xs@, ys@),
        (ConstantItem::MapConst(xs), ConstantItem::MapConst(ys)) => const_entries_eq(xs@, ys@),
        _ => false,
    }
}

/// Elementwise structural equality of two sequences of constants.
pub open spec fn const_seq_eq(s1: Seq<ConstantItem>, s2: Seq<ConstantItem>) -> bool
    decreases s1,
{
    s1.len() == s2.len() && (forall|i: int|
        0 <= i < s1.len() ==> const_eq_spec(s1[i], s2[i]))
}

/// Elementwise structural equality of two sequences of map entries.
pub open spec fn const_entries_eq(s1: Seq<ConstantEntry>, s2: Seq<ConstantEntry>) -> bool
    decreases s1,
{
    s1.len() == s2.len() && (forall|i: int|
        0 <= i < s1.len() ==> const_eq_spec(s1[i].key, s2[i].key) && const_eq_spec(
            s1[i].value,
            s2[i].value,
        ))
}

/// Structural equality of constants is reflexive.
pub proof fn lemma_const_eq_reflexive(a: ConstantItem)
    ensures
        const_eq_spec(a, a),
    decreases a,
{
    match a {
        ConstantItem::Tuple(xs) => {
            assert forall|i: int| 0 <= i < xs@.len() implies const_eq_spec(
                xs@[i],
                xs@[i],
            ) by {
                lemma_const_eq_reflexive(xs@[i]);
            }
            assert(const_seq_eq(xs@, xs@));
        },
        ConstantItem::List(xs) => {
            assert forall|i: int| 0 <= i < xs@.len() implies const_eq_spec(
                xs@[i],
                xs@[i],
            ) by {
                lemma_const_eq_reflexive(xs@[i]);
            }
            assert(const_seq_eq(xs@, xs@));
        },
        ConstantItem::MapConst(xs) => {
            assert forall|i: int| 0 <= i < xs@.len() implies const_eq_spec(
                xs@[i].key,
                xs@[i].key,
            ) && const_eq_spec(xs@[i].value, xs@[i].value) by {
                lemma_const_eq_reflexive(xs@[i].key);
                lemma_const_eq_reflexive(xs@[i].value);
            }
            assert(const_entries_eq(xs@, xs@));
        },
        _ => {},
    }
}

/// Structural equality of constants is symmetric.
pub proof fn lemma_const_eq_symmetric(a: ConstantItem, b: ConstantItem)
    ensures
        const_eq_spec(a, b) == const_eq_spec(b, a),
    decreases a,
{
    match (a, b) {
        (ConstantItem::Tuple(xs), ConstantItem::Tuple(ys)) => {
            assert forall|i: int| 0 <= i < xs@.len() && 0 <= i < ys@.len() implies
            const_eq_spec(xs@[i], ys@[i]) == const_eq_spec(ys@[i], xs@[i]) by {
                lemma_const_eq_symmetric(xs@[i], ys@[i]);
            }
            assert(const_seq_eq(xs@, ys@) == const_seq_eq(ys@, xs@));
        },
        (ConstantItem::List(xs), ConstantItem::List(ys)) => {
            assert forall|i: int| 0 <= i < xs@.len() && 0 <= i < ys@.len() implies
            const_eq_spec(xs@[i], ys@[i]) == const_eq_spec(ys@[i], xs@[i]) by {
                lemma_const_eq_symmetric(xs@[i], ys@[i]);
            }
            assert(const_seq_eq(xs@, ys@) == const_seq_eq(ys@, xs@));
        },
        (ConstantItem::MapConst(xs), ConstantItem::MapConst(ys)) => {
            assert forall|i: int| 0 <= i < xs@.len() && 0 <= i < ys@.len() implies (
            const_eq_spec(xs@[i].key, ys@[i].key) == const_eq_spec(ys@[i].key, xs@[i].key))
                && (const_eq_spec(xs@[i].value, ys@[i].value) == const_eq_spec(
                ys@[i].value,
                xs@[i].value,
            )) by {
                lemma_const_eq_symmetric(xs@[i].key, ys@[i].key);
                lemma_const_eq_symmetric(xs@[i].value, ys@[i].value);
            }
            assert(const_entries_eq(xs@, ys@) == const_entries_eq(ys@, xs@));
        },
        _ => {},
    }
}

/// Decides structural equality of two integer literals.
#[verifier::loop_isolation(false)]
pub fn integer_eq(a: &Integer, b: &Integer) -> (r: bool)
    ensures
        r == integer_eq_spec(*a, *b),
{
    match (a, b) {
        (Integer::Small(x), Integer::Small(y)) => x == y,
        (Integer::Big(sx, dx), Integer::Big(sy, dy)) => {
            if sx != sy {
                return false;
            }
            if dx.len() != dy.len() {
                return false;
            }
            let n = dx.len();
            let mut i: usize = 0;
            while i < n
                invariant
                    i <= n,
                    forall|j: int| 0 <= j < i ==> dx@[j] == dy@[j],
                decreases n - i,
            {
                if dx[i] != dy[i] {
                    return false;
                }
                i += 1;
            }
            assert(dx@ =~= dy@);
            true
        },
        _ => false,
    }
}

/// Decides structural equality of two byte vectors.
#[verifier::loop_isolation(false)]
fn bytes_eq(a: &Vec<u8>, b: &Vec<u8>) -> (r: bool)
    ensures
        r == (a@ == b@),
{
    if a.len() != b.len() {
        return false;
    }
    let n = a.len();
    let mut i: usize = 0;
    while i < n
        invariant
            i <= n,
            forall|j: int| 0 <= j < i ==> a@[j] == b@[j],
        decreases n - i,
    {
        if a[i] != b[i] {
            return false;
        }
        i += 1;
    }
    assert(a@ =~= b@);
    true
}

/// Decides structural equality of two constant pool items.
#[verifier::loop_isolation(false)]
pub fn const_eq(a: &ConstantItem, b: &ConstantItem) -> (r: bool)
    ensures
        r == const_eq_spec(*a, *b),
    decreases *a,
{
    match (a, b) {
        (ConstantItem::Integer(x), ConstantItem::Integer(y)) => integer_eq(x, y),
        (ConstantItem::Float(x), ConstantItem::Float(y)) => x == y,
        (ConstantItem::Bool(x), ConstantItem::Bool(y)) => x == y,
        (ConstantItem::Atom(x), ConstantItem::Atom(y)) => x == y,
        (ConstantItem::InternedStr(x), ConstantItem::InternedStr(y)) => x == y,
        (ConstantItem::StringLit(x), ConstantItem::StringLit(y)) => *x == *y,
        (ConstantItem::Bytes(x), ConstantItem::Bytes(y)) => bytes_eq(x, y),
        (ConstantItem::Bitstring(x, nx), ConstantItem::Bitstring(y, ny)) => {
            nx == ny && bytes_eq(x, y)
        },
        (ConstantItem::Tuple(xs), ConstantItem::Tuple(ys)) => const_slice_eq(xs, ys),
        (ConstantItem::List(xs), ConstantItem::List(ys)) => const_slice_eq(xs, ys),
        (ConstantItem::MapConst(xs), ConstantItem::MapConst(ys)) => {
            if xs.len() != ys.len() {
                return false;
            }
            let n = xs.len();
            let mut i: usize = 0;
            while i < n
                invariant
                    i <= n,
                    forall|j: int|
                        0 <= j < i ==> const_eq_spec(xs@[j].key, ys@[j].key)
                            && const_eq_spec(xs@[j].value, ys@[j].value),
                decreases n - i,
            {
                proof {
                    assert(decreases_to!(xs@ => xs@[i as int]));
                    assert(decreases_to!(*a => *xs));
                    assert(decreases_to!(*xs => xs@));
                }
                let kr = const_eq(&xs[i].key, &ys[i].key);
                if !kr {
                    return false;
                }
                let vr = const_eq(&xs[i].value, &ys[i].value);
                if !vr {
                    return false;
                }
                i += 1;
            }
            assert(const_entries_eq(xs@, ys@));
            true
        },
        _ => false,
    }
}

/// Decides elementwise structural equality of two vectors of constants.
#[verifier::loop_isolation(false)]
fn const_slice_eq(xs: &Vec<ConstantItem>, ys: &Vec<ConstantItem>) -> (r: bool)
    ensures
        r == const_seq_eq(xs@, ys@),
    decreases xs@,
{
    if xs.len() != ys.len() {
        return false;
    }
    let n = xs.len();
    let mut i: usize = 0;
    while i < n
        invariant
            i <= n,
            forall|j: int| 0 <= j < i ==> const_eq_spec(xs@[j], ys@[j]),
        decreases n - i,
    {
        let r = const_eq(&xs[i], &ys[i]);
        if !r {
            return false;
        }
        i += 1;
    }
    true
}

} // verus!
