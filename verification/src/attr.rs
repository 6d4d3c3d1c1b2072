//! Value types for formatting annotations: scope identities, colors, fonts,
//! the attribute variants that can be pushed onto the stack, and the
//! validation error for conflicting decorations.

use vstd::prelude::*;

use crate::geom::{bounded, valid_length, valid_text_size, Length, Smart, TextSize};

verus! {

/// An opaque identifier for the point in the document tree where a
/// formatting scope begins; compared only for equality.
#[derive(Clone, Copy, Debug, PartialEq, Eq, Structural)]
pub struct Location(pub u64);

/// An opaque source reference carried into error reports.
#[derive(Clone, Copy, Debug, PartialEq, Eq, Structural)]
pub struct Span(pub u64);

/// A formatting scope: where it is anchored and where it came from.
#[derive(Clone, Copy, Debug, PartialEq, Eq, Structural)]
pub struct Scope {
    pub location: Location,
    pub span: Span,
}

/// A flattened background or stroke color.
#[derive(Clone, Copy, Debug, PartialEq, Eq, Structural)]
pub struct Color {
    pub red: u8,
    pub green: u8,
    pub blue: u8,
}

/// Sub- or superscript placement.
#[derive(Clone, Copy, Debug, PartialEq, Eq, Structural)]
pub enum ScriptKind {
    Sub,
    Super,
}

/// A font's vertical offset and height for one script placement, in
/// font-relative units.
#[derive(Clone, Copy, Debug)]
pub struct ScriptMetrics {
    pub vertical_offset: Length,
    pub height: Length,
}

/// The per-font metrics this module reads: one metrics record per script
/// placement.
#[derive(Clone, Copy, Debug)]
pub struct FontMetrics {
    pub subscript: ScriptMetrics,
    pub superscript: ScriptMetrics,
}

/// The part of a font that resolution depends on: a stable identity for
/// cache-key equality, and the script metrics table.
#[derive(Clone, Copy, Debug)]
pub struct Font {
    pub index: u64,
    pub metrics: FontMetrics,
}

/// The state of one text run that a resolution depends on.
#[derive(Clone, Copy, Debug)]
pub struct TextItem {
    pub font: Font,
    pub size: i64,
}

pub open spec fn valid_script_metrics(m: ScriptMetrics) -> bool {
    valid_length(m.vertical_offset) && valid_length(m.height)
}

pub open spec fn valid_font(f: Font) -> bool {
    valid_script_metrics(f.metrics.subscript) && valid_script_metrics(f.metrics.superscript)
}

pub open spec fn spec_read_metrics(kind: ScriptKind, metrics: FontMetrics) -> ScriptMetrics {
    match kind {
        ScriptKind::Sub => metrics.subscript,
        ScriptKind::Super => metrics.superscript,
    }
}

impl ScriptKind {
    /// Looks up the metrics record for this script placement.
    pub fn read_metrics(self, metrics: &FontMetrics) -> (r: ScriptMetrics)
        ensures
            r == spec_read_metrics(self, *metrics),
    {
        match self {
            ScriptKind::Sub => metrics.subscript,
            ScriptKind::Super => metrics.superscript,
        }
    }
}

/// Sub- or super-script annotation payload.
#[derive(Clone, Copy, Debug)]
pub struct Script {
    pub kind: ScriptKind,
    pub baseline_shift: Smart<Length>,
    pub lineheight: Smart<TextSize>,
}

/// The decoration styles the output format can represent.
#[derive(Clone, Copy, Debug, PartialEq, Eq, Structural)]
pub enum TextDecoKind {
    Underline,
    Overline,
    Strike,
}

/// An explicit decoration stroke: an optional resolved color and an
/// optional thickness.
#[derive(Clone, Copy, Debug)]
pub struct Stroke {
    pub paint: Smart<Option<Color>>,
    pub thickness: Smart<Length>,
}

/// The stroke fields a decoration keeps: both optional, absent when the
/// consumer should pick a default.
#[derive(Clone, Copy, Debug)]
pub struct TextDecoStroke {
    pub color: Option<Color>,
    pub thickness: Option<Length>,
}

impl Default for TextDecoStroke {
    fn default() -> (r: Self)
        ensures
            r.color is None,
            r.thickness is None,
    {
        TextDecoStroke { color: None, thickness: None }
    }
}

pub open spec fn spec_stroke_from(stroke: Smart<Stroke>) -> TextDecoStroke {
    match stroke {
        Smart::Auto => TextDecoStroke { color: None, thickness: None },
        Smart::Custom(s) => TextDecoStroke {
            color: match s.paint {
                Smart::Auto => None,
                Smart::Custom(c) => c,
            },
            thickness: s.thickness.spec_custom(),
        },
    }
}

impl TextDecoStroke {
    /// Extracts the explicitly given stroke parts, if any.
    pub fn from(stroke: Smart<Stroke>) -> (r: Self)
        ensures
            r == spec_stroke_from(stroke),
    {
        let s = match stroke {
            Smart::Auto => {
                return TextDecoStroke::default();
            },
            Smart::Custom(s) => s,
        };
        let color = match s.paint {
            Smart::Auto => None,
            Smart::Custom(c) => c,
        };
        let thickness = s.thickness.custom();
        TextDecoStroke { color, thickness }
    }
}

/// A decoration annotation payload.
#[derive(Clone, Copy, Debug)]
pub struct TextDeco {
    pub kind: TextDecoKind,
    pub stroke: TextDecoStroke,
}

/// One formatting annotation.
#[derive(Clone, Copy, Debug)]
pub enum TextAttr {
    Strong,
    Emph,
    Script(Script),
    Highlight(Option<Color>),
    Deco(TextDeco),
}

impl TextAttr {
    pub open spec fn spec_as_deco(self) -> Option<TextDeco> {
        match self {
            TextAttr::Deco(v) => Some(v),
            _ => None,
        }
    }

    /// The decoration payload, if this annotation is one.
    pub fn as_deco(&self) -> (r: Option<&TextDeco>)
        ensures
            match r {
                Some(d) => self.spec_as_deco() == Some(*d),
                None => self.spec_as_deco() is None,
            },
    {
        if let TextAttr::Deco(v) = self {
            Some(v)
        } else {
            None
        }
    }
}

/// An annotation that strict mode cannot combine with a decoration of the
/// given kind: a decoration of a different kind.
pub open spec fn conflicts_with(a: TextAttr, kind: TextDecoKind) -> bool {
    a matches TextAttr::Deco(d) && d.kind != kind
}

/// Whether any entry of the log carries a decoration of a different kind.
pub open spec fn has_conflicting_deco(items: Seq<(Location, TextAttr)>, kind: TextDecoKind) -> bool {
    exists|k: int| 0 <= k < items.len() && conflicts_with(#[trigger] items[k].1, kind)
}

pub open spec fn valid_script(s: Script) -> bool {
    &&& (s.baseline_shift matches Smart::Custom(l) ==> valid_length(l))
    &&& (s.lineheight matches Smart::Custom(t) ==> valid_text_size(t))
}

pub open spec fn valid_deco(d: TextDeco) -> bool {
    d.stroke.thickness matches Some(t) ==> valid_length(t)
}

pub open spec fn valid_stroke(stroke: Smart<Stroke>) -> bool {
    stroke matches Smart::Custom(s) ==> (s.thickness matches Smart::Custom(t) ==> valid_length(t))
}

/// An annotation whose length payloads are small enough for resolution
/// arithmetic to stay within `i64`.
pub open spec fn attr_valid(a: TextAttr) -> bool {
    match a {
        TextAttr::Script(s) => valid_script(s),
        TextAttr::Deco(d) => valid_deco(d),
        _ => true,
    }
}

pub open spec fn valid_size(size: i64) -> bool {
    bounded(size as int)
}

/// The validation configuration: whether strict accessibility mode is
/// active, and the validator's name for error reports.
#[derive(Clone, Debug)]
pub struct Options {
    pub strict: bool,
    pub validator: String,
}

/// The one failure this module can report: in strict accessibility mode, a
/// decoration was pushed while a decoration of a different kind was still
/// active, which the output format cannot represent.
#[derive(Clone, Debug, PartialEq, Eq)]
pub struct DecoConflict {
    pub span: Span,
    pub validator: String,
}

} // verus!
