//! The JSON values that records are decoded from, and lookup of object keys.
use vstd::prelude::*;

verus! {

/// A JSON value as read from one record of the log.
///
/// Integers keep their exact value; a number written with a fraction or an
/// exponent keeps its text, since no decoder of this crate accepts one.
/// An object keeps its entries in the order in which they were written.
#[derive(Debug, PartialEq, Eq)]
pub enum JsonValue {
    Null,
    Bool(bool),
    Int(i128),
    Float(String),
    Str(String),
    Array(Vec<JsonValue>),
    Object(Vec<(String, JsonValue)>),
}

/// The shape of a JSON value, as named in type errors.
#[derive(Debug, Clone, Copy, PartialEq, Eq, Structural)]
pub enum JsonKind {
    Null,
    Bool,
    Int,
    Float,
    Str,
    Array,
    Object,
}

pub open spec fn kind_of(v: JsonValue) -> JsonKind {
    match v {
        JsonValue::Null => JsonKind::Null,
        JsonValue::Bool(_) => JsonKind::Bool,
        JsonValue::Int(_) => JsonKind::Int,
        JsonValue::Float(_) => JsonKind::Float,
        JsonValue::Str(_) => JsonKind::Str,
        JsonValue::Array(_) => JsonKind::Array,
        JsonValue::Object(_) => JsonKind::Object,
    }
}

impl JsonValue {
    pub fn kind(&self) -> (r: JsonKind)
        ensures
            r == kind_of(*self),
    {
        match self {
            JsonValue::Null => JsonKind::Null,
            JsonValue::Bool(_) => JsonKind::Bool,
            JsonValue::Int(_) => JsonKind::Int,
            JsonValue::Float(_) => JsonKind::Float,
            JsonValue::Str(_) => JsonKind::Str,
            JsonValue::Array(_) => JsonKind::Array,
            JsonValue::Object(_) => JsonKind::Object,
        }
    }
}

/// The least natural number at which `p` holds, where `p` holds somewhere.
pub open spec fn least(p: spec_fn(int) -> bool) -> int {
    choose|i: int| 0 <= i && #[trigger] p(i) && forall|j: int| 0 <= j < i ==> !#[trigger] p(j)
}

/// Where `p` holds at `i`, it has a least point, at or below `i`.
pub proof fn lemma_least_exists(p: spec_fn(int) -> bool, i: int)
    requires
        0 <= i,
        p(i),
    ensures
        0 <= least(p) <= i,
        p(least(p)),
        forall|j: int| 0 <= j < least(p) ==> !#[trigger] p(j),
    decreases i,
{
    if exists|j: int| 0 <= j < i && #[trigger] p(j) {
        let j = choose|j: int| 0 <= j < i && #[trigger] p(j);
        lemma_least_exists(p, j);
    } else {
        lemma_least(p, i);
    }
}

pub proof fn lemma_least(p: spec_fn(int) -> bool, i: int)
    requires
        0 <= i,
        p(i),
        forall|j: int| 0 <= j < i ==> !#[trigger] p(j),
    ensures
        least(p) == i,
{
    let k = least(p);
    assert(0 <= k && p(k) && forall|j: int| 0 <= j < k ==> !#[trigger] p(j));
    if k < i {
        assert(!p(k));
    } else if k > i {
        assert(!p(i));
    }
}

/// Whether the entry at `i` is written under `key`.
pub open spec fn key_at(e: Seq<(String, JsonValue)>, key: Seq<char>, i: int) -> bool {
    0 <= i < e.len() && e[i].0@ == key
}

/// The position of the first entry written under `key`, if there is one.
pub open spec fn position_of(e: Seq<(String, JsonValue)>, key: Seq<char>) -> Option<usize> {
    if exists|i: int| key_at(e, key, i) {
        Some(least(|i: int| key_at(e, key, i)) as usize)
    } else {
        None
    }
}

/// Whether the entry at `i` is written under `a` or under `b`.
pub open spec fn names_either(e: Seq<(String, JsonValue)>, a: Seq<char>, b: Seq<char>, i: int) -> bool {
    0 <= i < e.len() && (e[i].0@ == a || e[i].0@ == b)
}

/// The position of the first entry written under `a` or under `b`, if there is one.
pub open spec fn position_of_either(e: Seq<(String, JsonValue)>, a: Seq<char>, b: Seq<char>) -> Option<usize> {
    if exists|i: int| names_either(e, a, b, i) {
        Some(least(|i: int| names_either(e, a, b, i)) as usize)
    } else {
        None
    }
}

/// Where the entry at `i` is the first under `a` or `b`, it is the one found.
pub proof fn lemma_position_of_either_at(e: Seq<(String, JsonValue)>, a: Seq<char>, b: Seq<char>, i: int)
    requires
        names_either(e, a, b, i),
        forall|j: int| 0 <= j < i ==> !#[trigger] names_either(e, a, b, j),
    ensures
        position_of_either(e, a, b) == Some(i as usize),
{
    lemma_least(|j: int| names_either(e, a, b, j), i);
}

pub proof fn lemma_position_of_either(e: Seq<(String, JsonValue)>, a: Seq<char>, b: Seq<char>)
    requires
        e.len() <= usize::MAX,
    ensures
        match position_of_either(e, a, b) {
            Some(i) => names_either(e, a, b, i as int) && forall|j: int|
                0 <= j < i ==> !#[trigger] names_either(e, a, b, j),
            None => forall|j: int| !#[trigger] names_either(e, a, b, j),
        },
{
    if exists|i: int| names_either(e, a, b, i) {
        let i = choose|i: int| names_either(e, a, b, i);
        let p = |i: int| names_either(e, a, b, i);
        assert(p(i));
        lemma_least_exists(p, i);
        assert forall|j: int| 0 <= j < least(p) implies !#[trigger] names_either(e, a, b, j) by {
            assert(!p(j));
        }
    }
}

/// Finds the first entry of an object that is written under `a` or under `b`.
pub fn find_either(e: &Vec<(String, JsonValue)>, a: &str, b: &str) -> (r: Option<usize>)
    ensures
        r == position_of_either(e@, a@, b@),
        r matches Some(i) ==> names_either(e@, a@, b@, i as int),
{
    let mut i: usize = 0;
    while i < e.len()
        invariant
            0 <= i <= e.len(),
            forall|j: int| 0 <= j < i ==> !#[trigger] names_either(e@, a@, b@, j),
        decreases e.len() - i,
    {
        if text_is(&e[i].0, a) || text_is(&e[i].0, b) {
            proof {
                lemma_position_of_either_at(e@, a@, b@, i as int);
            }
            return Some(i);
        }
        i = i + 1;
    }
    None
}

/// The first position of a key holds it, and no earlier entry does.
pub proof fn lemma_position_of(e: Seq<(String, JsonValue)>, key: Seq<char>)
    requires
        e.len() <= usize::MAX,
    ensures
        match position_of(e, key) {
            Some(i) => key_at(e, key, i as int) && forall|j: int| 0 <= j < i ==> !#[trigger] key_at(e, key, j),
            None => forall|j: int| !#[trigger] key_at(e, key, j),
        },
{
    if exists|i: int| key_at(e, key, i) {
        let i = choose|i: int| key_at(e, key, i);
        let p = |i: int| key_at(e, key, i);
        assert(p(i));
        lemma_least_exists(p, i);
        assert forall|j: int| 0 <= j < least(p) implies !#[trigger] key_at(e, key, j) by {
            assert(!p(j));
        }
    }
}

/// Whether `s` holds the same text as `lit`.
pub fn text_is(s: &String, lit: &str) -> (r: bool)
    ensures
        r == (s@ == lit@),
{
    let t = lit.to_owned();
    *s == t
}

/// Finds the first entry of an object that is written under `key`.
pub fn find_key(e: &Vec<(String, JsonValue)>, key: &str) -> (r: Option<usize>)
    ensures
        r == position_of(e@, key@),
        r matches Some(i) ==> key_at(e@, key@, i as int),
{
    let ghost p = |i: int| key_at(e@, key@, i);
    let mut i: usize = 0;
    while i < e.len()
        invariant
            0 <= i <= e.len(),
            p == (|i: int| key_at(e@, key@, i)),
            forall|j: int| 0 <= j < i ==> !key_at(e@, key@, j),
        decreases e.len() - i,
    {
        if text_is(&e[i].0, key) {
            proof {
                assert(key_at(e@, key@, i as int));
                lemma_least(p, i as int);
            }
            return Some(i);
        }
        i = i + 1;
    }
    None
}

} // verus!
