//! The consolidated style state of one text run: one slot per independent
//! style axis, each either still undecided or decided to a value.

use vstd::prelude::*;

use crate::attr::{Color, TextDecoKind};

verus! {

/// A decided sub-/superscript: baseline shift and line height in absolute
/// units.
#[derive(Clone, Copy, Debug, PartialEq, Eq, Structural)]
pub struct ResolvedScript {
    pub baseline_shift: i64,
    pub lineheight: i64,
}

/// A decided decoration: its kind, and color and thickness where
/// explicitly given.
#[derive(Clone, Copy, Debug, PartialEq)]
pub struct ResolvedTextDeco {
    pub kind: TextDecoKind,
    pub color: Option<Color>,
    pub thickness: Option<i64>,
}

/// The resolved style of a text run. `None` in a slot means the axis was
/// never decided, which consumers treat like a decided absence; it is
/// tracked separately only so resolution can stop early once every slot is
/// decided.
#[derive(Clone, Copy, Debug, PartialEq)]
pub struct ResolvedTextAttrs {
    pub strong: Option<bool>,
    pub emph: Option<bool>,
    pub script: Option<ResolvedScript>,
    pub background: Option<Option<Color>>,
    pub deco: Option<ResolvedTextDeco>,
}

impl ResolvedTextAttrs {
    /// The all-undecided style.
    pub open spec fn spec_empty() -> Self {
        ResolvedTextAttrs {
            strong: None,
            emph: None,
            script: None,
            background: None,
            deco: None,
        }
    }

    /// Returns the all-undecided style.
    pub fn empty() -> (r: Self)
        ensures
            r == Self::spec_empty(),
    {
        ResolvedTextAttrs {
            strong: None,
            emph: None,
            script: None,
            background: None,
            deco: None,
        }
    }

    /// Returns whether no axis has been decided.
    pub fn is_empty(&self) -> (r: bool)
        ensures
            r == (*self == Self::spec_empty()),
    {
        self.strong.is_none() && self.emph.is_none() && self.script.is_none()
            && self.background.is_none() && self.deco.is_none()
    }

    pub open spec fn spec_all_resolved(self) -> bool {
        &&& self.strong is Some
        &&& self.emph is Some
        &&& self.script is Some
        &&& self.background is Some
        &&& self.deco is Some
    }

    /// Returns whether every axis has been decided.
    pub fn all_resolved(&self) -> (r: bool)
        ensures
            r == self.spec_all_resolved(),
    {
        self.strong.is_some() && self.emph.is_some() && self.script.is_some()
            && self.background.is_some() && self.deco.is_some()
    }
}

} // verus!
