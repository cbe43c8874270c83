//! Typed coercions of single values, and the fields of strict objects.
use vstd::prelude::*;

use crate::error::{
    DecodeError, DecodeErrorView, ErrorKindView, StepView, fault, mismatch, nest, outcome,
    outcome_view, within,
};
use crate::json::{JsonKind, JsonValue, key_at, least, lemma_least, lemma_position_of, position_of};

verus! {

pub open spec fn string_of(v: JsonValue) -> Result<String, DecodeErrorView> {
    match v {
        JsonValue::Str(s) => Ok(s),
        _ => Err(mismatch(JsonKind::Str, v)),
    }
}

pub open spec fn bool_of(v: JsonValue) -> Result<bool, DecodeErrorView> {
    match v {
        JsonValue::Bool(b) => Ok(b),
        _ => Err(mismatch(JsonKind::Bool, v)),
    }
}

pub open spec fn u64_of(v: JsonValue) -> Result<u64, DecodeErrorView> {
    match v {
        JsonValue::Int(n) => if 0 <= n <= u64::MAX {
            Ok(n as u64)
        } else {
            Err(fault(ErrorKindView::OutOfRange { value: n as int }))
        },
        _ => Err(mismatch(JsonKind::Int, v)),
    }
}

pub open spec fn usize_of(v: JsonValue) -> Result<usize, DecodeErrorView> {
    match v {
        JsonValue::Int(n) => if 0 <= n <= usize::MAX {
            Ok(n as usize)
        } else {
            Err(fault(ErrorKindView::OutOfRange { value: n as int }))
        },
        _ => Err(mismatch(JsonKind::Int, v)),
    }
}

/// The outcome at position `i` of an array, seen from the array.
pub open spec fn at_index<T>(i: int, r: Result<T, DecodeErrorView>) -> Result<T, DecodeErrorView> {
    match r {
        Ok(x) => Ok(x),
        Err(e) => Err(within(StepView::Index(i), e)),
    }
}

/// Decoding `n` elements in order: the first failure, or all results.
pub open spec fn all_of<T>(n: int, f: spec_fn(int) -> Result<T, DecodeErrorView>) -> Result<Seq<T>, DecodeErrorView> {
    if exists|i: int| 0 <= i < n && (#[trigger] f(i)) is Err {
        Err(f(least(|i: int| 0 <= i < n && f(i) is Err))->Err_0)
    } else {
        Ok(Seq::new(n as nat, |i: int| f(i)->Ok_0))
    }
}

pub proof fn lemma_all_of_err<T>(n: int, f: spec_fn(int) -> Result<T, DecodeErrorView>, i: int)
    requires
        0 <= i < n,
        f(i) is Err,
        forall|j: int| 0 <= j < i ==> (#[trigger] f(j)) is Ok,
    ensures
        all_of(n, f) == Err::<Seq<T>, DecodeErrorView>(f(i)->Err_0),
{
    let p = |k: int| 0 <= k < n && f(k) is Err;
    assert(p(i));
    lemma_least(p, i);
}

pub proof fn lemma_all_of_ok<T>(n: int, f: spec_fn(int) -> Result<T, DecodeErrorView>, out: Seq<T>)
    requires
        0 <= n,
        out.len() == n,
        forall|j: int| 0 <= j < n ==> (#[trigger] f(j)) == Ok::<T, DecodeErrorView>(out[j]),
    ensures
        all_of(n, f) == Ok::<Seq<T>, DecodeErrorView>(out),
{
    assert(Seq::new(n as nat, |i: int| f(i)->Ok_0) =~= out);
}

/// Where `n` elements all decode, each of them does.
pub proof fn lemma_all_of_ok_each<T>(n: int, f: spec_fn(int) -> Result<T, DecodeErrorView>, i: int)
    requires
        all_of(n, f) is Ok,
        0 <= i < n,
    ensures
        f(i) is Ok,
{
    if f(i) is Err {
        assert(exists|j: int| 0 <= j < n && (#[trigger] f(j)) is Err);
    }
}

/// The strings of an array, each element a string.
pub open spec fn strings_in(a: Seq<JsonValue>) -> Result<Seq<String>, DecodeErrorView> {
    all_of(a.len() as int, |i: int| at_index(i, string_of(a[i])))
}

pub open spec fn strings_of(v: JsonValue) -> Result<Seq<String>, DecodeErrorView> {
    match v {
        JsonValue::Array(a) => strings_in(a@),
        _ => Err(mismatch(JsonKind::Array, v)),
    }
}

proof fn lemma_strings_in_err(a: Seq<JsonValue>, i: int)
    requires
        0 <= i < a.len(),
        string_of(a[i]) is Err,
        forall|j: int| 0 <= j < i ==> (#[trigger] string_of(a[j])) is Ok,
    ensures
        strings_in(a) == Err::<Seq<String>, DecodeErrorView>(
            within(StepView::Index(i), string_of(a[i])->Err_0),
        ),
{
    let f = |i: int| at_index(i, string_of(a[i]));
    assert forall|j: int| 0 <= j < i implies (#[trigger] f(j)) is Ok by {
        assert(string_of(a[j]) is Ok);
    }
    lemma_all_of_err(a.len() as int, f, i);
}

proof fn lemma_strings_in_ok(a: Seq<JsonValue>, out: Seq<String>)
    requires
        out.len() == a.len(),
        forall|j: int| 0 <= j < a.len() ==> (#[trigger] string_of(a[j])) == Ok::<String, DecodeErrorView>(out[j]),
    ensures
        strings_in(a) == Ok::<Seq<String>, DecodeErrorView>(out),
{
    let f = |i: int| at_index(i, string_of(a[i]));
    assert forall|j: int| 0 <= j < a.len() implies (#[trigger] f(j)) == Ok::<String, DecodeErrorView>(out[j]) by {
        assert(string_of(a[j]) == Ok::<String, DecodeErrorView>(out[j]));
    }
    lemma_all_of_ok(a.len() as int, f, out);
}

/// A required field: a missing key fails, and so does its value where it fails.
pub open spec fn required<T>(
    e: Seq<(String, JsonValue)>,
    key: Seq<char>,
    dec: spec_fn(JsonValue) -> Result<T, DecodeErrorView>,
) -> Result<T, DecodeErrorView> {
    match position_of(e, key) {
        None => Err(fault(ErrorKindView::MissingField { key })),
        Some(i) => nest(key, dec(e[i as int].1)),
    }
}

/// An optional field: a missing key and `null` both read as nothing.
pub open spec fn optional<T>(
    e: Seq<(String, JsonValue)>,
    key: Seq<char>,
    dec: spec_fn(JsonValue) -> Result<T, DecodeErrorView>,
) -> Result<Option<T>, DecodeErrorView> {
    match position_of(e, key) {
        None => Ok(None),
        Some(i) => match e[i as int].1 {
            JsonValue::Null => Ok(None),
            v => match dec(v) {
                Ok(x) => Ok(Some(x)),
                Err(err) => Err(within(StepView::Key(key), err)),
            },
        },
    }
}

/// A field with a default: a missing key reads as `d`; `null` is no default.
pub open spec fn defaulted<T>(
    e: Seq<(String, JsonValue)>,
    key: Seq<char>,
    dec: spec_fn(JsonValue) -> Result<T, DecodeErrorView>,
    d: T,
) -> Result<T, DecodeErrorView> {
    match position_of(e, key) {
        None => Ok(d),
        Some(i) => nest(key, dec(e[i as int].1)),
    }
}

/// A field that may be written under either of two keys, but not under both.
pub open spec fn aliased<T>(
    e: Seq<(String, JsonValue)>,
    key: Seq<char>,
    alias: Seq<char>,
    dec: spec_fn(JsonValue) -> Result<T, DecodeErrorView>,
) -> Result<T, DecodeErrorView> {
    match (position_of(e, key), position_of(e, alias)) {
        (Some(_), Some(_)) => Err(fault(ErrorKindView::UnknownField { key: alias })),
        (Some(i), None) => nest(key, dec(e[i as int].1)),
        (None, Some(j)) => nest(alias, dec(e[j as int].1)),
        (None, None) => Err(fault(ErrorKindView::MissingField { key })),
    }
}

/// The entry that an aliased field takes.
pub open spec fn alias_position(e: Seq<(String, JsonValue)>, key: Seq<char>, alias: Seq<char>) -> Option<usize> {
    match position_of(e, key) {
        Some(i) => Some(i),
        None => position_of(e, alias),
    }
}

/// A field kept as it is written: the value under `key`, where the key is present.
pub open spec fn raw_field<'a>(e: Seq<(String, JsonValue)>, key: Seq<char>) -> Option<&'a JsonValue> {
    match position_of(e, key) {
        Some(i) => Some(&e[i as int].1),
        None => None,
    }
}

/// Whether some field took the entry at `i`.
pub open spec fn consumed(used: Seq<Option<usize>>, i: int) -> bool {
    exists|k: int| 0 <= k < used.len() && used[k] == Some(i as usize)
}

pub open spec fn stray(e: Seq<(String, JsonValue)>, used: Seq<Option<usize>>, i: int) -> bool {
    0 <= i < e.len() && !consumed(used, i)
}

/// Strictness: the first entry that no field took is an unknown field.
pub open spec fn leftover(e: Seq<(String, JsonValue)>, used: Seq<Option<usize>>) -> Result<(), DecodeErrorView> {
    if exists|i: int| stray(e, used, i) {
        Err(fault(ErrorKindView::UnknownField { key: e[least(|i: int| stray(e, used, i))].0@ }))
    } else {
        Ok(())
    }
}

pub open spec fn text_of(v: JsonValue) -> Result<Seq<char>, DecodeErrorView> {
    match v {
        JsonValue::Str(s) => Ok(s@),
        _ => Err(mismatch(JsonKind::Str, v)),
    }
}

/// The value `x` of an object whose entries were all taken, or the first stray key.
pub open spec fn finish<T>(e: Seq<(String, JsonValue)>, used: Seq<Option<usize>>, x: T) -> Result<T, DecodeErrorView> {
    match leftover(e, used) {
        Ok(_) => Ok(x),
        Err(err) => Err(err),
    }
}

/// An entry added at the end under another key leaves a key's position as it was.
pub proof fn lemma_position_of_push(e: Seq<(String, JsonValue)>, key: Seq<char>, entry: (String, JsonValue))
    requires
        entry.0@ != key,
        e.len() < usize::MAX,
    ensures
        position_of(e.push(entry), key) == position_of(e, key),
        match position_of(e, key) {
            Some(i) => i < e.len() && e.push(entry)[i as int] == e[i as int],
            None => true,
        },
{
    let f = e.push(entry);
    assert forall|j: int| #[trigger] key_at(f, key, j) == key_at(e, key, j) by {
        if 0 <= j < e.len() {
            assert(f[j] == e[j]);
        }
    }
    assert((|j: int| key_at(f, key, j)) =~= (|j: int| key_at(e, key, j)));
    if exists|i: int| key_at(e, key, i) {
        let i = choose|i: int| key_at(e, key, i);
        assert(key_at(f, key, i));
    } else {
        assert(!exists|i: int| key_at(f, key, i)) by {
            if exists|i: int| key_at(f, key, i) {
                let i = choose|i: int| key_at(f, key, i);
                assert(key_at(e, key, i));
            }
        }
    }
    lemma_position_of(e, key);
}

/// Where every field took an entry of `e` and nothing was left over, an entry
/// added at the end is the first stray key.
pub proof fn lemma_leftover_push(e: Seq<(String, JsonValue)>, used: Seq<Option<usize>>, entry: (String, JsonValue))
    requires
        leftover(e, used) is Ok,
        e.len() < usize::MAX,
        forall|k: int| 0 <= k < used.len() ==> (#[trigger] used[k] matches Some(x) ==> x < e.len()),
    ensures
        leftover(e.push(entry), used) == Err::<(), DecodeErrorView>(
            fault(ErrorKindView::UnknownField { key: entry.0@ }),
        ),
{
    let f = e.push(entry);
    let n = e.len() as int;
    assert(!consumed(used, n)) by {
        if consumed(used, n) {
            let k = choose|k: int| 0 <= k < used.len() && used[k] == Some(n as usize);
            assert(used[k] matches Some(x) ==> x < e.len());
        }
    }
    assert(stray(f, used, n));
    assert forall|j: int| 0 <= j < n implies !#[trigger] stray(f, used, j) by {
        assert(!stray(e, used, j));
    }
    lemma_least(|i: int| stray(f, used, i), n);
    assert(f[n] == entry);
}

/// The variant that a code names, or else an unknown-variant failure.
pub open spec fn variant_of<T>(code: Option<T>, discriminator: Seq<char>, value: Seq<char>) -> Result<T, DecodeErrorView> {
    match code {
        Some(x) => Ok(x),
        None => Err(fault(ErrorKindView::UnknownVariant { discriminator, value })),
    }
}

/// The object's entries, or a type failure.
pub open spec fn entries_of(v: JsonValue) -> Result<Seq<(String, JsonValue)>, DecodeErrorView> {
    match v {
        JsonValue::Object(e) => Ok(e@),
        _ => Err(mismatch(JsonKind::Object, v)),
    }
}

pub fn decode_entries(v: &JsonValue) -> (r: Result<&Vec<(String, JsonValue)>, DecodeError>)
    ensures
        match r {
            Ok(e) => entries_of(*v) == Ok::<Seq<(String, JsonValue)>, DecodeErrorView>(e@),
            Err(err) => entries_of(*v) == Err::<Seq<(String, JsonValue)>, DecodeErrorView>(err@),
        },
{
    match v {
        JsonValue::Object(e) => Ok(e),
        _ => Err(DecodeError::type_mismatch(JsonKind::Object, v)),
    }
}

pub fn decode_string(v: &JsonValue) -> (r: Result<String, DecodeError>)
    ensures
        outcome(r) == string_of(*v),
{
    match v {
        JsonValue::Str(s) => Ok(s.clone()),
        _ => Err(DecodeError::type_mismatch(JsonKind::Str, v)),
    }
}

pub fn decode_bool(v: &JsonValue) -> (r: Result<bool, DecodeError>)
    ensures
        outcome(r) == bool_of(*v),
{
    match v {
        JsonValue::Bool(b) => Ok(*b),
        _ => Err(DecodeError::type_mismatch(JsonKind::Bool, v)),
    }
}

pub fn decode_u64(v: &JsonValue) -> (r: Result<u64, DecodeError>)
    ensures
        outcome(r) == u64_of(*v),
{
    match v {
        JsonValue::Int(n) => if 0 <= *n && *n <= u64::MAX as i128 {
            Ok(*n as u64)
        } else {
            Err(DecodeError::new(crate::error::ErrorKind::OutOfRange { value: *n }))
        },
        _ => Err(DecodeError::type_mismatch(JsonKind::Int, v)),
    }
}

pub fn decode_usize(v: &JsonValue) -> (r: Result<usize, DecodeError>)
    ensures
        outcome(r) == usize_of(*v),
{
    match v {
        JsonValue::Int(n) => if 0 <= *n && *n <= usize::MAX as i128 {
            Ok(*n as usize)
        } else {
            Err(DecodeError::new(crate::error::ErrorKind::OutOfRange { value: *n }))
        },
        _ => Err(DecodeError::type_mismatch(JsonKind::Int, v)),
    }
}

pub fn decode_strings(v: &JsonValue) -> (r: Result<Vec<String>, DecodeError>)
    ensures
        outcome_view(r) == strings_of(*v),
{
    match v {
        JsonValue::Array(a) => {
            let mut out: Vec<String> = Vec::new();
            let mut i: usize = 0;
            while i < a.len()
                invariant
                    0 <= i <= a.len(),
                    strings_of(*v) == strings_in(a@),
                    out@.len() == i,
                    forall|j: int| 0 <= j < i ==> (#[trigger] string_of(a@[j])) == Ok::<String, DecodeErrorView>(out@[j]),
                decreases a.len() - i,
            {
                match decode_string(&a[i]) {
                    Ok(s) => out.push(s),
                    Err(err) => {
                        proof {
                            lemma_strings_in_err(a@, i as int);
                        }
                        return Err(err.within_index(i));
                    },
                }
                i = i + 1;
            }
            proof {
                lemma_strings_in_ok(a@, out@);
            }
            Ok(out)
        },
        _ => Err(DecodeError::type_mismatch(JsonKind::Array, v)),
    }
}

/// Finds the entry for `key`, and records that the field took it.
pub fn take<'a>(e: &'a Vec<(String, JsonValue)>, key: &str, used: &mut Vec<Option<usize>>) -> (r: Option<&'a JsonValue>)
    ensures
        final(used)@ == old(used)@.push(position_of(e@, key@)),
        r == raw_field(e@, key@),
{
    let p = crate::json::find_key(e, key);
    used.push(p);
    match p {
        Some(i) => Some(&e[i].1),
        None => None,
    }
}

/// Checks that every entry of the object was taken by some field.
pub fn reject_leftover(e: &Vec<(String, JsonValue)>, used: &Vec<Option<usize>>) -> (r: Result<(), DecodeError>)
    ensures
        outcome(r) == leftover(e@, used@),
{
    let ghost p = |i: int| stray(e@, used@, i);
    let mut i: usize = 0;
    while i < e.len()
        invariant
            0 <= i <= e.len(),
            p == (|i: int| stray(e@, used@, i)),
            forall|j: int| 0 <= j < i ==> !#[trigger] stray(e@, used@, j),
        decreases e.len() - i,
    {
        let mut found = false;
        let mut k: usize = 0;
        while k < used.len()
            invariant
                0 <= k <= used.len(),
                found == exists|m: int| 0 <= m < k && used@[m] == Some(i),
            decreases used.len() - k,
        {
            match used[k] {
                Some(j) => if j == i {
                    found = true;
                },
                None => {},
            }
            k = k + 1;
        }
        if !found {
            proof {
                assert(stray(e@, used@, i as int));
                lemma_least(p, i as int);
            }
            return Err(DecodeError::unknown_field(&e[i].0));
        }
        proof {
            assert(consumed(used@, i as int));
        }
        i = i + 1;
    }
    Ok(())
}

pub fn required_string(e: &Vec<(String, JsonValue)>, key: &str, used: &mut Vec<Option<usize>>) -> (r: Result<String, DecodeError>)
    ensures
        final(used)@ == old(used)@.push(position_of(e@, key@)),
        outcome(r) == required(e@, key@, |v: JsonValue| string_of(v)),
{
    match take(e, key, used) {
        None => Err(DecodeError::missing_field(key)),
        Some(v) => match decode_string(v) {
            Ok(s) => Ok(s),
            Err(err) => Err(err.within_key(key)),
        },
    }
}

pub fn optional_string(e: &Vec<(String, JsonValue)>, key: &str, used: &mut Vec<Option<usize>>) -> (r: Result<Option<String>, DecodeError>)
    ensures
        final(used)@ == old(used)@.push(position_of(e@, key@)),
        outcome(r) == optional(e@, key@, |v: JsonValue| string_of(v)),
{
    match take(e, key, used) {
        None => Ok(None),
        Some(JsonValue::Null) => Ok(None),
        Some(v) => match decode_string(v) {
            Ok(s) => Ok(Some(s)),
            Err(err) => Err(err.within_key(key)),
        },
    }
}

/// A string field that reads as empty where its key is missing.
pub fn string_or_empty(e: &Vec<(String, JsonValue)>, key: &str, used: &mut Vec<Option<usize>>) -> (r: Result<String, DecodeError>)
    ensures
        final(used)@ == old(used)@.push(position_of(e@, key@)),
        outcome_view(r) == defaulted(e@, key@, |v: JsonValue| text_of(v), Seq::empty()),
{
    match take(e, key, used) {
        None => Ok(String::new()),
        Some(v) => match decode_string(v) {
            Ok(s) => Ok(s),
            Err(err) => Err(err.within_key(key)),
        },
    }
}

pub fn required_bool(e: &Vec<(String, JsonValue)>, key: &str, used: &mut Vec<Option<usize>>) -> (r: Result<bool, DecodeError>)
    ensures
        final(used)@ == old(used)@.push(position_of(e@, key@)),
        outcome(r) == required(e@, key@, |v: JsonValue| bool_of(v)),
{
    match take(e, key, used) {
        None => Err(DecodeError::missing_field(key)),
        Some(v) => match decode_bool(v) {
            Ok(b) => Ok(b),
            Err(err) => Err(err.within_key(key)),
        },
    }
}

/// A flag that reads as `false` where its key is missing.
pub fn bool_or_false(e: &Vec<(String, JsonValue)>, key: &str, used: &mut Vec<Option<usize>>) -> (r: Result<bool, DecodeError>)
    ensures
        final(used)@ == old(used)@.push(position_of(e@, key@)),
        outcome(r) == defaulted(e@, key@, |v: JsonValue| bool_of(v), false),
{
    match take(e, key, used) {
        None => Ok(false),
        Some(v) => match decode_bool(v) {
            Ok(b) => Ok(b),
            Err(err) => Err(err.within_key(key)),
        },
    }
}

pub fn required_u64(e: &Vec<(String, JsonValue)>, key: &str, used: &mut Vec<Option<usize>>) -> (r: Result<u64, DecodeError>)
    ensures
        final(used)@ == old(used)@.push(position_of(e@, key@)),
        outcome(r) == required(e@, key@, |v: JsonValue| u64_of(v)),
{
    match take(e, key, used) {
        None => Err(DecodeError::missing_field(key)),
        Some(v) => match decode_u64(v) {
            Ok(n) => Ok(n),
            Err(err) => Err(err.within_key(key)),
        },
    }
}

pub fn optional_u64(e: &Vec<(String, JsonValue)>, key: &str, used: &mut Vec<Option<usize>>) -> (r: Result<Option<u64>, DecodeError>)
    ensures
        final(used)@ == old(used)@.push(position_of(e@, key@)),
        outcome(r) == optional(e@, key@, |v: JsonValue| u64_of(v)),
{
    match take(e, key, used) {
        None => Ok(None),
        Some(JsonValue::Null) => Ok(None),
        Some(v) => match decode_u64(v) {
            Ok(n) => Ok(Some(n)),
            Err(err) => Err(err.within_key(key)),
        },
    }
}

pub fn required_usize(e: &Vec<(String, JsonValue)>, key: &str, used: &mut Vec<Option<usize>>) -> (r: Result<usize, DecodeError>)
    ensures
        final(used)@ == old(used)@.push(position_of(e@, key@)),
        outcome(r) == required(e@, key@, |v: JsonValue| usize_of(v)),
{
    match take(e, key, used) {
        None => Err(DecodeError::missing_field(key)),
        Some(v) => match decode_usize(v) {
            Ok(n) => Ok(n),
            Err(err) => Err(err.within_key(key)),
        },
    }
}

pub fn required_strings(e: &Vec<(String, JsonValue)>, key: &str, used: &mut Vec<Option<usize>>) -> (r: Result<Vec<String>, DecodeError>)
    ensures
        final(used)@ == old(used)@.push(position_of(e@, key@)),
        outcome_view(r) == required(e@, key@, |v: JsonValue| strings_of(v)),
{
    match take(e, key, used) {
        None => Err(DecodeError::missing_field(key)),
        Some(v) => match decode_strings(v) {
            Ok(s) => Ok(s),
            Err(err) => Err(err.within_key(key)),
        },
    }
}

/// A list of strings that reads as empty where its key is missing.
pub fn strings_or_empty(e: &Vec<(String, JsonValue)>, key: &str, used: &mut Vec<Option<usize>>) -> (r: Result<Vec<String>, DecodeError>)
    ensures
        final(used)@ == old(used)@.push(position_of(e@, key@)),
        outcome_view(r) == defaulted(e@, key@, |v: JsonValue| strings_of(v), Seq::empty()),
{
    match take(e, key, used) {
        None => Ok(Vec::new()),
        Some(v) => match decode_strings(v) {
            Ok(s) => Ok(s),
            Err(err) => Err(err.within_key(key)),
        },
    }
}

/// A string field written under `key` or under `alias`, never both.
pub fn aliased_string(
    e: &Vec<(String, JsonValue)>,
    key: &str,
    alias: &str,
    used: &mut Vec<Option<usize>>,
) -> (r: Result<String, DecodeError>)
    ensures
        final(used)@ == old(used)@.push(alias_position(e@, key@, alias@)),
        outcome(r) == aliased(e@, key@, alias@, |v: JsonValue| string_of(v)),
{
    let p = crate::json::find_key(e, key);
    let q = crate::json::find_key(e, alias);
    match (p, q) {
        (Some(_), Some(j)) => {
            used.push(p);
            Err(DecodeError::unknown_field(&e[j].0))
        },
        (Some(i), None) => {
            used.push(p);
            match decode_string(&e[i].1) {
                Ok(s) => Ok(s),
                Err(err) => Err(err.within_key(key)),
            }
        },
        (None, Some(j)) => {
            used.push(q);
            match decode_string(&e[j].1) {
                Ok(s) => Ok(s),
                Err(err) => Err(err.within_key(alias)),
            }
        },
        (None, None) => {
            used.push(None);
            Err(DecodeError::missing_field(key))
        },
    }
}

} // verus!
