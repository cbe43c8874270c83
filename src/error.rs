//! Decode failures: what went wrong, and the path of keys and indices to it.
use vstd::prelude::*;

use crate::json::{JsonKind, JsonValue, kind_of};

verus! {

/// One step of the way from a record's root to a value inside it.
#[derive(Debug, Clone, PartialEq, Eq)]
pub enum PathStep {
    Key(String),
    Index(usize),
}

/// What went wrong where a decode failed.
#[derive(Debug, Clone, PartialEq, Eq)]
#[allow(inconsistent_fields)]
pub enum ErrorKind {
    /// The object holds a key that its schema does not name, or a second
    /// key for a field that it already gave.
    UnknownField { key: String },
    /// The object lacks a key that its schema requires.
    MissingField { key: String },
    /// The value has another shape than the schema asks for.
    TypeMismatch { expected: JsonKind, found: JsonKind },
    /// The integer does not fit the field's type.
    OutOfRange { value: i128 },
    /// A tag, namespace or code names no known variant.
    UnknownVariant { discriminator: String, value: String },
    /// An object that stands for one variant, by its key, holds no key.
    MissingVariant { discriminator: String },
    /// The epoch-millisecond count names no representable instant.
    MalformedTimestamp { value: i128 },
}

/// A failed decode: the path to the offending object or value, and what went wrong.
#[derive(Debug, Clone, PartialEq, Eq)]
pub struct DecodeError {
    pub path: Vec<PathStep>,
    pub kind: ErrorKind,
}

pub enum StepView {
    Key(Seq<char>),
    Index(int),
}

#[allow(inconsistent_fields)]
pub enum ErrorKindView {
    UnknownField { key: Seq<char> },
    MissingField { key: Seq<char> },
    TypeMismatch { expected: JsonKind, found: JsonKind },
    OutOfRange { value: int },
    UnknownVariant { discriminator: Seq<char>, value: Seq<char> },
    MissingVariant { discriminator: Seq<char> },
    MalformedTimestamp { value: int },
}

pub struct DecodeErrorView {
    pub path: Seq<StepView>,
    pub kind: ErrorKindView,
}

impl View for PathStep {
    type V = StepView;

    open spec fn view(&self) -> StepView {
        match self {
            PathStep::Key(k) => StepView::Key(k@),
            PathStep::Index(i) => StepView::Index(*i as int),
        }
    }
}

impl View for ErrorKind {
    type V = ErrorKindView;

    open spec fn view(&self) -> ErrorKindView {
        match self {
            ErrorKind::UnknownField { key } => ErrorKindView::UnknownField { key: key@ },
            ErrorKind::MissingField { key } => ErrorKindView::MissingField { key: key@ },
            ErrorKind::TypeMismatch { expected, found } => ErrorKindView::TypeMismatch {
                expected: *expected,
                found: *found,
            },
            ErrorKind::OutOfRange { value } => ErrorKindView::OutOfRange { value: *value as int },
            ErrorKind::UnknownVariant { discriminator, value } => ErrorKindView::UnknownVariant {
                discriminator: discriminator@,
                value: value@,
            },
            ErrorKind::MissingVariant { discriminator } => ErrorKindView::MissingVariant {
                discriminator: discriminator@,
            },
            ErrorKind::MalformedTimestamp { value } => ErrorKindView::MalformedTimestamp {
                value: *value as int,
            },
        }
    }
}

impl View for DecodeError {
    type V = DecodeErrorView;

    open spec fn view(&self) -> DecodeErrorView {
        DecodeErrorView { path: self.path@.map_values(|s: PathStep| s@), kind: self.kind@ }
    }
}

/// A failure located at the value being decoded.
pub open spec fn fault(kind: ErrorKindView) -> DecodeErrorView {
    DecodeErrorView { path: Seq::empty(), kind }
}

pub open spec fn mismatch(expected: JsonKind, v: JsonValue) -> DecodeErrorView {
    fault(ErrorKindView::TypeMismatch { expected, found: kind_of(v) })
}

/// The failure `e`, seen from one step further out.
pub open spec fn within(step: StepView, e: DecodeErrorView) -> DecodeErrorView {
    DecodeErrorView { path: seq![step] + e.path, kind: e.kind }
}

/// The outcome of decoding the value under `key`, seen from its object.
pub open spec fn nest<T>(key: Seq<char>, r: Result<T, DecodeErrorView>) -> Result<T, DecodeErrorView> {
    match r {
        Ok(x) => Ok(x),
        Err(e) => Err(within(StepView::Key(key), e)),
    }
}

/// An exec outcome whose success value is compared as it is.
pub open spec fn outcome<T>(r: Result<T, DecodeError>) -> Result<T, DecodeErrorView> {
    match r {
        Ok(x) => Ok(x),
        Err(e) => Err(e@),
    }
}

/// An exec outcome whose success value is compared through its view.
pub open spec fn outcome_view<T: View>(r: Result<T, DecodeError>) -> Result<T::V, DecodeErrorView> {
    match r {
        Ok(x) => Ok(x@),
        Err(e) => Err(e@),
    }
}

impl DecodeError {
    pub fn new(kind: ErrorKind) -> (r: DecodeError)
        ensures
            r@ == fault(kind@),
    {
        let r = DecodeError { path: Vec::new(), kind };
        assert(r@.path =~= Seq::<StepView>::empty());
        r
    }

    pub fn type_mismatch(expected: JsonKind, v: &JsonValue) -> (r: DecodeError)
        ensures
            r@ == mismatch(expected, *v),
    {
        DecodeError::new(ErrorKind::TypeMismatch { expected, found: v.kind() })
    }

    pub fn unknown_field(key: &String) -> (r: DecodeError)
        ensures
            r@ == fault(ErrorKindView::UnknownField { key: key@ }),
    {
        DecodeError::new(ErrorKind::UnknownField { key: key.clone() })
    }

    pub fn missing_field(key: &str) -> (r: DecodeError)
        ensures
            r@ == fault(ErrorKindView::MissingField { key: key@ }),
    {
        DecodeError::new(ErrorKind::MissingField { key: key.to_owned() })
    }

    pub fn unknown_variant(discriminator: &str, value: &String) -> (r: DecodeError)
        ensures
            r@ == fault(ErrorKindView::UnknownVariant { discriminator: discriminator@, value: value@ }),
    {
        DecodeError::new(ErrorKind::UnknownVariant { discriminator: discriminator.to_owned(), value: value.clone() })
    }

    /// The same failure, seen from the object that holds it under `key`.
    pub fn within_key(self, key: &str) -> (r: DecodeError)
        ensures
            r@ == within(StepView::Key(key@), self@),
    {
        let mut path = self.path;
        let step = PathStep::Key(key.to_owned());
        path.insert(0, step);
        let r = DecodeError { path, kind: self.kind };
        assert(r@.path =~= seq![step@] + self@.path);
        r
    }

    /// The same failure, seen from the array that holds it at `i`.
    pub fn within_index(self, i: usize) -> (r: DecodeError)
        ensures
            r@ == within(StepView::Index(i as int), self@),
    {
        let mut path = self.path;
        let step = PathStep::Index(i);
        path.insert(0, step);
        let r = DecodeError { path, kind: self.kind };
        assert(r@.path =~= seq![step@] + self@.path);
        r
    }
}

} // verus!
