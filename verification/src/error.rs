//! What decoding reports when a JSON value is not a card.

use crate::json::{clone_value, value_json, Json};
use serde_json::Value;
use vstd::prelude::*;

verus! {

/// Why a JSON value could not be decoded.
#[derive(Debug, Clone, Copy, PartialEq, Eq, Structural)]
pub enum ErrorKind {
    /// A field without which the object means nothing is absent.
    MissingRequiredField,
    /// An object that must say what it is has no `type`.
    MissingDiscriminant,
    /// The `type` of an object is none of those its place allows.
    UnknownVariantTag,
    /// A string is none of the tokens its field allows.
    InvalidEnumLiteral,
    /// A column width is neither a weight nor `auto`, `stretch` or pixels.
    InvalidColumnWidth,
    /// A value is of another JSON kind than its place asks for.
    TypeMismatch,
    /// Nodes and actions are nested deeper than the limit in force.
    RecursionTooDeep,
}

/// One step on the way from the decoded value down to the offending one.
#[derive(Debug, Clone, PartialEq, Eq)]
pub enum PathStep {
    /// Into the field of this name.
    Key(&'static str),
    /// Into the array item at this position.
    Index(usize),
}

/// A [`PathStep`] with its key as a sequence of characters.
pub enum PathStepView {
    Key(Seq<char>),
    Index(nat),
}

impl View for PathStep {
    type V = PathStepView;

    open spec fn view(&self) -> PathStepView {
        match self {
            PathStep::Key(k) => PathStepView::Key(k@),
            PathStep::Index(i) => PathStepView::Index(*i as nat),
        }
    }
}

/// The first incompatibility met while decoding.
#[derive(Debug, Clone, PartialEq)]
pub struct DecodeError {
    /// What is wrong.
    pub kind: ErrorKind,
    /// Where: the steps from the decoded value down to the offending one.
    pub path: Vec<PathStep>,
    /// The offending value, where there is one.
    pub raw: Option<Value>,
}

/// A [`DecodeError`] over the model of JSON.
pub struct DecodeErrorView {
    pub kind: ErrorKind,
    pub path: Seq<PathStepView>,
    pub raw: Option<Json>,
}

/// The model of an optional raw value.
pub open spec fn raw_json(raw: Option<Value>) -> Option<Json> {
    match raw {
        Some(v) => Some(value_json(v)),
        None => None,
    }
}

impl View for DecodeError {
    type V = DecodeErrorView;

    open spec fn view(&self) -> DecodeErrorView {
        DecodeErrorView {
            kind: self.kind,
            path: self.path@.map_values(|s: PathStep| s@),
            raw: raw_json(self.raw),
        }
    }
}

/// An error of `kind` about `raw`, at the decoded value itself.
pub open spec fn failure(kind: ErrorKind, raw: Option<Json>) -> DecodeErrorView {
    DecodeErrorView { kind, path: Seq::empty(), raw }
}

/// The error `e`, met one `step` further down.
pub open spec fn under(e: DecodeErrorView, step: PathStepView) -> DecodeErrorView {
    DecodeErrorView { kind: e.kind, path: seq![step] + e.path, raw: e.raw }
}

/// The error `e`, met in the field `key`.
pub open spec fn under_key(e: DecodeErrorView, key: Seq<char>) -> DecodeErrorView {
    under(e, PathStepView::Key(key))
}

/// The error `e`, met in the array item at `index`.
pub open spec fn under_index(e: DecodeErrorView, index: nat) -> DecodeErrorView {
    under(e, PathStepView::Index(index))
}

/// The model of a decoding result.
pub open spec fn decoded<T: View>(r: Result<T, DecodeError>) -> Result<T::V, DecodeErrorView> {
    match r {
        Ok(t) => Ok(t@),
        Err(e) => Err(e@),
    }
}

impl DecodeError {
    /// An error of `kind` at the decoded value itself, with no raw value.
    pub fn bare(kind: ErrorKind) -> (e: DecodeError)
        ensures
            e@ == failure(kind, None),
    {
        let e = DecodeError { kind, path: Vec::new(), raw: None };
        assert(e@.path =~= Seq::empty());
        e
    }

    /// An error of `kind` at the decoded value itself, about `raw`.
    pub fn about(kind: ErrorKind, raw: &Value) -> (e: DecodeError)
        ensures
            e@ == failure(kind, Some(value_json(*raw))),
    {
        let e = DecodeError { kind, path: Vec::new(), raw: Some(clone_value(raw)) };
        assert(e@.path =~= Seq::empty());
        e
    }

    /// The same error, met one `step` further down.
    pub fn under(self, step: PathStep) -> (e: DecodeError)
        ensures
            e@ == under(self@, step@),
    {
        let mut e = self;
        e.path.insert(0, step);
        assert(e@.path =~= seq![step@] + self@.path);
        e
    }

    /// The same error, met in the field `key`.
    pub fn under_key(self, key: &'static str) -> (e: DecodeError)
        ensures
            e@ == under_key(self@, key@),
    {
        self.under(PathStep::Key(key))
    }

    /// The same error, met in the array item at `index`.
    pub fn under_index(self, index: usize) -> (e: DecodeError)
        ensures
            e@ == under_index(self@, index as nat),
    {
        self.under(PathStep::Index(index))
    }
}

} // verus!
