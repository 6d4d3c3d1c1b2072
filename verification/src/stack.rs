//! The attribute stack: an ordered log of active formatting annotations,
//! with push, pop-by-location, and memoized resolution of the effective
//! style for a text run.
//!
//! The log is not a strict stack: entries are appended on push and removed
//! by scanning from the end for the most recent entry with a given
//! location. Resolution walks the log from most recent to least recent and
//! lets the first entry of each style axis decide that axis.

use vstd::prelude::*;

use crate::attr::{
    attr_valid, conflicts_with, has_conflicting_deco, spec_read_metrics, spec_stroke_from,
    valid_font, valid_size, valid_stroke, Color, DecoConflict, Font, Location, Options, Scope,
    Script, ScriptKind, Stroke, TextAttr, TextDeco, TextDecoKind, TextDecoStroke, TextItem,
};
use crate::geom::{bounded, lemma_spec_at_bounds, spec_at, valid_length, valid_text_size, Length,
    Smart, TextSize};
use crate::resolved::{ResolvedScript, ResolvedTextAttrs, ResolvedTextDeco};

verus! {

/// One log entry: the location of the scope that pushed it, and the
/// annotation itself.
pub type Entry = (Location, TextAttr);

/// The run parameters a memoized resolution is keyed on: the font's stable
/// identity and the text size, compared exactly.
#[derive(Clone, Copy, Debug, PartialEq, Eq, Structural)]
pub struct TextParams {
    pub font_index: u64,
    pub size: i64,
}

pub open spec fn spec_params(text: TextItem) -> TextParams {
    TextParams { font_index: text.font.index, size: text.size }
}

impl TextParams {
    pub fn new(text: &TextItem) -> (r: TextParams)
        ensures
            r == spec_params(*text),
    {
        TextParams { font_index: text.font.index, size: text.size }
    }
}

/// The effective baseline shift of a script annotation: the explicit
/// override, sign-inverted, if given; otherwise the metric-derived offset.
pub open spec fn spec_script_shift(s: Script, font: Font, size: int) -> int {
    match s.baseline_shift {
        Smart::Custom(l) => -spec_at(l, size),
        Smart::Auto => spec_at(spec_read_metrics(s.kind, font.metrics).vertical_offset, size),
    }
}

/// The effective line height of a script annotation: the explicit override
/// if given, otherwise the metric-derived height.
pub open spec fn spec_script_height(s: Script, font: Font, size: int) -> int {
    match s.lineheight {
        Smart::Custom(t) => spec_at(t.0, size),
        Smart::Auto => spec_at(spec_read_metrics(s.kind, font.metrics).height, size),
    }
}

pub open spec fn spec_resolve_script(s: Script, font: Font, size: int) -> ResolvedScript {
    ResolvedScript {
        baseline_shift: spec_script_shift(s, font, size) as i64,
        lineheight: spec_script_height(s, font, size) as i64,
    }
}

pub open spec fn spec_resolve_deco(d: TextDeco, size: int) -> ResolvedTextDeco {
    ResolvedTextDeco {
        kind: d.kind,
        color: d.stroke.color,
        thickness: match d.stroke.thickness {
            Some(t) => Some(spec_at(t, size) as i64),
            None => None,
        },
    }
}

/// The style state decided by a single annotation: exactly one axis set.
pub open spec fn decide_one(a: TextAttr, font: Font, size: int) -> ResolvedTextAttrs {
    match a {
        TextAttr::Strong => ResolvedTextAttrs {
            strong: Some(true),
            emph: None,
            script: None,
            background: None,
            deco: None,
        },
        TextAttr::Emph => ResolvedTextAttrs {
            strong: None,
            emph: Some(true),
            script: None,
            background: None,
            deco: None,
        },
        TextAttr::Script(s) => ResolvedTextAttrs {
            strong: None,
            emph: None,
            script: Some(spec_resolve_script(s, font, size)),
            background: None,
            deco: None,
        },
        TextAttr::Highlight(c) => ResolvedTextAttrs {
            strong: None,
            emph: None,
            script: None,
            background: Some(c),
            deco: None,
        },
        TextAttr::Deco(d) => ResolvedTextAttrs {
            strong: None,
            emph: None,
            script: None,
            background: None,
            deco: Some(spec_resolve_deco(d, size)),
        },
    }
}

/// Combines two style states, axis by axis; a slot already decided in `a`
/// shadows whatever `b` decided for it.
pub open spec fn merge(a: ResolvedTextAttrs, b: ResolvedTextAttrs) -> ResolvedTextAttrs {
    ResolvedTextAttrs {
        strong: if a.strong is Some { a.strong } else { b.strong },
        emph: if a.emph is Some { a.emph } else { b.emph },
        script: if a.script is Some { a.script } else { b.script },
        background: if a.background is Some { a.background } else { b.background },
        deco: if a.deco is Some { a.deco } else { b.deco },
    }
}

/// The effective style of a log: each axis is decided by the most recently
/// pushed entry of that axis, with the axes independent of one another.
pub open spec fn spec_resolve_attrs(items: Seq<Entry>, font: Font, size: int) -> ResolvedTextAttrs
    decreases items.len(),
{
    if items.len() == 0 {
        ResolvedTextAttrs::spec_empty()
    } else {
        merge(
            spec_resolve_attrs(items.drop_first(), font, size),
            decide_one(items[0].1, font, size),
        )
    }
}

proof fn lemma_merge_assoc(a: ResolvedTextAttrs, b: ResolvedTextAttrs, c: ResolvedTextAttrs)
    ensures
        merge(merge(a, b), c) == merge(a, merge(b, c)),
{
}

/// Appending an entry resolves like deciding that entry first and letting
/// the older log fill the remaining axes: the newest entry wins its axis.
pub proof fn lemma_resolve_push(items: Seq<Entry>, e: Entry, font: Font, size: int)
    ensures
        spec_resolve_attrs(items.push(e), font, size) == merge(
            decide_one(e.1, font, size),
            spec_resolve_attrs(items, font, size),
        ),
    decreases items.len(),
{
    let pushed = items.push(e);
    let d = decide_one(e.1, font, size);
    if items.len() == 0 {
        assert(pushed.len() == 1);
        assert(pushed[0] == e);
        assert(pushed.drop_first() =~= Seq::<Entry>::empty());
        assert(spec_resolve_attrs(pushed.drop_first(), font, size)
            == ResolvedTextAttrs::spec_empty());
        assert(spec_resolve_attrs(pushed, font, size) == merge(ResolvedTextAttrs::spec_empty(), d));
        assert(merge(ResolvedTextAttrs::spec_empty(), d) == merge(
            d,
            ResolvedTextAttrs::spec_empty(),
        ));
    } else {
        assert(pushed.len() == items.len() + 1);
        assert(pushed[0] == items[0]);
        assert(pushed.drop_first() =~= items.drop_first().push(e));
        lemma_resolve_push(items.drop_first(), e, font, size);
        let rest = spec_resolve_attrs(items.drop_first(), font, size);
        let d0 = decide_one(items[0].1, font, size);
        lemma_merge_assoc(d, rest, d0);
        assert(spec_resolve_attrs(pushed, font, size) == merge(merge(d, rest), d0));
        assert(spec_resolve_attrs(items, font, size) == merge(rest, d0));
    }
}

/// Once every axis is decided by a suffix of the log, older entries cannot
/// change the result.
proof fn lemma_resolved_extend(items: Seq<Entry>, j: int, i: int, font: Font, size: int)
    requires
        0 <= j <= i <= items.len(),
        spec_resolve_attrs(
            items.subrange(i, items.len() as int),
            font,
            size,
        ).spec_all_resolved(),
    ensures
        spec_resolve_attrs(items.subrange(j, items.len() as int), font, size)
            == spec_resolve_attrs(items.subrange(i, items.len() as int), font, size),
    decreases i - j,
{
    if j < i {
        lemma_resolved_extend(items, j + 1, i, font, size);
        let len = items.len() as int;
        assert(items.subrange(j, len).drop_first() =~= items.subrange(j + 1, len));
        assert(items.subrange(j, len)[0] == items[j]);
    }
}

/// The index of the most recently pushed entry with the given location, if
/// any.
pub open spec fn spec_last_match(items: Seq<Entry>, loc: Location) -> Option<int>
    decreases items.len(),
{
    if items.len() == 0 {
        None
    } else if items.last().0 == loc {
        Some(items.len() - 1)
    } else {
        spec_last_match(items.drop_last(), loc)
    }
}

/// The log after popping the given location: the most recent matching
/// entry is removed; a log with no match is unchanged.
pub open spec fn spec_pop(items: Seq<Entry>, loc: Location) -> Seq<Entry> {
    match spec_last_match(items, loc) {
        Some(j) => items.remove(j),
        None => items,
    }
}

/// Entries past `i` that all fail to match cannot be the most recent
/// match: the search result is that of the prefix.
proof fn lemma_last_match_prefix(items: Seq<Entry>, loc: Location, i: int)
    requires
        0 <= i <= items.len(),
        forall|k: int| i <= k < items.len() ==> (#[trigger] items[k]).0 != loc,
    ensures
        spec_last_match(items, loc) == spec_last_match(items.take(i), loc),
    decreases items.len() - i,
{
    if i == items.len() {
        assert(items.take(i) =~= items);
    } else {
        assert(items[items.len() - 1].0 != loc);
        assert(items.drop_last() =~= items.take(items.len() - 1));
        lemma_last_match_prefix(items.drop_last(), loc, i);
        assert(items.drop_last().take(i) =~= items.take(i));
    }
}

/// The attribute stack: an append-only log of currently active
/// annotations, and a single-slot memo of the last resolution, keyed on
/// the run parameters and discarded by every mutation.
#[derive(Clone, Debug)]
pub struct TextAttrs {
    pub last_resolved: Option<(TextParams, ResolvedTextAttrs)>,
    pub items: Vec<Entry>,
}

/// One resolution step as the stack performs it: the memoized result when
/// the run parameters match the memo exactly, otherwise a fresh resolution
/// of the log, which is then memoized.
pub open spec fn spec_resolve(s: TextAttrs, text: TextItem) -> (TextAttrs, ResolvedTextAttrs) {
    match s.last_resolved {
        Some(c) => if c.0 == spec_params(text) {
            (s, c.1)
        } else {
            spec_recompute(s, text)
        },
        None => spec_recompute(s, text),
    }
}

pub open spec fn spec_recompute(s: TextAttrs, text: TextItem) -> (TextAttrs, ResolvedTextAttrs) {
    let r = spec_resolve_attrs(s.items@, text.font, text.size as int);
    ((TextAttrs { last_resolved: Some((spec_params(text), r)), items: s.items }), r)
}

impl TextAttrs {
    /// Every entry's length payloads are small enough for resolution
    /// arithmetic to stay within `i64`.
    pub open spec fn wf(self) -> bool {
        forall|k: int| 0 <= k < self.items@.len() ==> attr_valid(#[trigger] self.items@[k].1)
    }

    /// Creates an empty stack with an empty memo.
    pub fn new() -> (r: Self)
        ensures
            r.items@ == Seq::<Entry>::empty(),
            r.last_resolved is None,
            r.wf(),
    {
        TextAttrs { last_resolved: None, items: Vec::new() }
    }

    /// Appends an annotation for the given scope and discards the memo.
    pub fn push(&mut self, scope: Scope, attr: TextAttr)
        requires
            attr_valid(attr),
        ensures
            final(self).items@ == old(self).items@.push((scope.location, attr)),
            final(self).last_resolved is None,
            old(self).wf() ==> final(self).wf(),
    {
        self.last_resolved = None;
        self.items.push((scope.location, attr));
        proof {
            if old(self).wf() {
                assert forall|k: int| 0 <= k < self.items@.len() implies attr_valid(
                    self.items@[k].1,
                ) by {
                    if k < old(self).items@.len() {
                        assert(self.items@[k] == old(self).items@[k]);
                    } else {
                        assert(self.items@[k] == (scope.location, attr));
                    }
                }
            }
        }
    }

    /// Appends a sub-/superscript annotation.
    pub fn push_script(
        &mut self,
        scope: Scope,
        kind: ScriptKind,
        baseline_shift: Smart<Length>,
        lineheight: Smart<TextSize>,
    )
        requires
            baseline_shift matches Smart::Custom(l) ==> valid_length(l),
            lineheight matches Smart::Custom(t) ==> valid_text_size(t),
        ensures
            final(self).items@ == old(self).items@.push(
                (scope.location, TextAttr::Script((Script { kind, baseline_shift, lineheight }))),
            ),
            final(self).last_resolved is None,
            old(self).wf() ==> final(self).wf(),
    {
        let val = Script { kind, baseline_shift, lineheight };
        self.push(scope, TextAttr::Script(val));
    }

    /// Appends a highlight annotation carrying an already-resolved
    /// background color; `None` stands for an explicitly absent fill.
    pub fn push_highlight(&mut self, scope: Scope, color: Option<Color>)
        ensures
            final(self).items@ == old(self).items@.push(
                (scope.location, TextAttr::Highlight(color)),
            ),
            final(self).last_resolved is None,
            old(self).wf() ==> final(self).wf(),
    {
        self.push(scope, TextAttr::Highlight(color));
    }

    /// Appends a decoration annotation. In strict accessibility mode the
    /// output format can represent only one decoration style at a time, so
    /// the push fails with a conflict error, and leaves the stack and memo
    /// untouched, exactly when an active decoration has a different kind.
    pub fn push_deco(
        &mut self,
        options: &Options,
        scope: Scope,
        kind: TextDecoKind,
        stroke: Smart<Stroke>,
    ) -> (r: Result<(), DecoConflict>)
        requires
            valid_stroke(stroke),
        ensures
            ({
                let conflict = options.strict && has_conflicting_deco(old(self).items@, kind);
                &&& (conflict ==> (r matches Err(e) && e.span == scope.span && e.validator@
                    == options.validator@ && *final(self) == *old(self)))
                &&& (!conflict ==> r is Ok && final(self).items@ == old(self).items@.push(
                    (
                        scope.location,
                        TextAttr::Deco((TextDeco { kind, stroke: spec_stroke_from(stroke) })),
                    ),
                ) && final(self).last_resolved is None)
                &&& (old(self).wf() ==> final(self).wf())
            }),
    {
        let stroke = TextDecoStroke::from(stroke);
        let deco = TextDeco { kind, stroke };

        if options.strict {
            let mut found = false;
            let mut i: usize = 0;
            while i < self.items.len()
                invariant
                    i <= self.items@.len(),
                    *self == *old(self),
                    found == exists|k: int|
                        0 <= k < i as int && conflicts_with(#[trigger] self.items@[k].1, kind),
                decreases self.items@.len() - i,
            {
                if let Some(d) = self.items[i].1.as_deco() {
                    if d.kind != kind {
                        found = true;
                        assert(conflicts_with(self.items@[i as int].1, kind));
                    }
                }
                i += 1;
            }
            if found {
                return Err(DecoConflict { span: scope.span, validator: options.validator.clone() });
            }
        }

        self.push(scope, TextAttr::Deco(deco));
        Ok(())
    }

    /// Removes the most recently pushed entry whose scope matches `loc`
    /// and discards the memo. Returns whether the removed entry was a
    /// decoration; popping a location with no entry is a no-op that
    /// reports nothing removed.
    pub fn pop(&mut self, loc: Location) -> (r: bool)
        ensures
            final(self).last_resolved is None,
            final(self).items@ == spec_pop(old(self).items@, loc),
            r == (spec_last_match(old(self).items@, loc) matches Some(j) && old(
                self,
            ).items@[j].1 is Deco),
            old(self).wf() ==> final(self).wf(),
    {
        self.last_resolved = None;
        let ghost orig = self.items@;

        let mut i: usize = self.items.len();
        while i > 0
            invariant
                i <= orig.len(),
                orig == old(self).items@,
                self.items@ == orig,
                self.last_resolved is None,
                forall|k: int| i <= k < orig.len() ==> (#[trigger] orig[k]).0 != loc,
            decreases i,
        {
            i = i - 1;
            if self.items[i].0 == loc {
                let was_deco = if let TextAttr::Deco(_) = self.items[i].1 {
                    true
                } else {
                    false
                };
                proof {
                    lemma_last_match_prefix(orig, loc, i as int + 1);
                    assert(orig.take(i as int + 1).last() == orig[i as int]);
                    assert(spec_last_match(orig, loc) == Some(i as int));
                }
                self.items.remove(i);
                proof {
                    if old(self).wf() {
                        assert forall|k: int| 0 <= k < self.items@.len() implies attr_valid(
                            self.items@[k].1,
                        ) by {
                            orig.remove_ensures(i as int);
                        }
                    }
                }
                return was_deco;
            }
        }
        proof {
            lemma_last_match_prefix(orig, loc, 0);
            assert(orig.take(0) =~= Seq::<Entry>::empty());
        }
        false
    }

    /// Resolves the effective style for a text run. A memoized result is
    /// returned unchanged when the run parameters equal the memo's key;
    /// otherwise the log is resolved afresh and the result memoized.
    pub fn resolve(&mut self, text: &TextItem) -> (r: ResolvedTextAttrs)
        requires
            old(self).wf(),
            valid_font(text.font),
            valid_size(text.size),
        ensures
            *final(self) == spec_resolve(*old(self), *text).0,
            r == spec_resolve(*old(self), *text).1,
            final(self).wf(),
    {
        let params = TextParams::new(text);
        match self.last_resolved {
            Some((prev_params, attrs)) => {
                if prev_params == params {
                    return attrs;
                }
            },
            None => {},
        }

        let attrs = resolve_attrs(&self.items, &text.font, text.size);
        self.last_resolved = Some((params, attrs));
        attrs
    }
}

/// Walks the log from most recent to least recent, letting the first entry
/// of each axis decide it, and stops early once every axis is decided.
fn resolve_attrs(items: &Vec<Entry>, font: &Font, size: i64) -> (r: ResolvedTextAttrs)
    requires
        forall|k: int| 0 <= k < items@.len() ==> attr_valid(#[trigger] items@[k].1),
        valid_font(*font),
        bounded(size as int),
    ensures
        r == spec_resolve_attrs(items@, *font, size as int),
{
    let ghost gitems = items@;
    let mut attrs = ResolvedTextAttrs::empty();
    let mut done = false;
    let mut i: usize = items.len();
    while i > 0 && !done
        invariant
            i <= gitems.len(),
            gitems == items@,
            valid_font(*font),
            bounded(size as int),
            forall|k: int| 0 <= k < gitems.len() ==> attr_valid(#[trigger] gitems[k].1),
            !done ==> attrs == spec_resolve_attrs(
                gitems.subrange(i as int, gitems.len() as int),
                *font,
                size as int,
            ),
            done ==> attrs == spec_resolve_attrs(gitems, *font, size as int),
        decreases i,
    {
        i = i - 1;
        let ghost pre = attrs;
        let attr = items[i].1;
        assert(attr_valid(gitems[i as int].1));
        match attr {
            TextAttr::Strong => {
                if attrs.strong.is_none() {
                    attrs.strong = Some(true);
                }
            },
            TextAttr::Emph => {
                if attrs.emph.is_none() {
                    attrs.emph = Some(true);
                }
            },
            TextAttr::Script(script) => {
                if attrs.script.is_none() {
                    let script_metrics = script.kind.read_metrics(&font.metrics);
                    let baseline_shift: i64 = match script.baseline_shift {
                        Smart::Custom(l) => {
                            proof {
                                lemma_spec_at_bounds(l, size as int);
                            }
                            let v: i64 = l.at(size);
                            -v
                        },
                        Smart::Auto => script_metrics.vertical_offset.at(size),
                    };
                    let lineheight: i64 = match script.lineheight {
                        Smart::Custom(t) => t.0.at(size),
                        Smart::Auto => script_metrics.height.at(size),
                    };
                    attrs.script = Some(ResolvedScript { baseline_shift, lineheight });
                    assert(attrs.script == Some(spec_resolve_script(script, *font, size as int)));
                }
            },
            TextAttr::Highlight(color) => {
                if attrs.background.is_none() {
                    attrs.background = Some(color);
                }
            },
            TextAttr::Deco(deco) => {
                if attrs.deco.is_none() {
                    let thickness: Option<i64> = match deco.stroke.thickness {
                        Some(t) => Some(t.at(size)),
                        None => None,
                    };
                    attrs.deco = Some(
                        ResolvedTextDeco { kind: deco.kind, color: deco.stroke.color, thickness },
                    );
                    assert(attrs.deco == Some(spec_resolve_deco(deco, size as int)));
                }
            },
        }
        proof {
            let len = gitems.len() as int;
            assert(gitems.subrange(i as int, len).drop_first() =~= gitems.subrange(
                i as int + 1,
                len,
            ));
            assert(gitems.subrange(i as int, len)[0] == gitems[i as int]);
            assert(attrs == merge(pre, decide_one(gitems[i as int].1, *font, size as int)));
        }
        if attrs.all_resolved() {
            proof {
                lemma_resolved_extend(gitems, 0, i as int, *font, size as int);
                assert(gitems.subrange(0, gitems.len() as int) =~= gitems);
            }
            done = true;
        }
    }
    proof {
        if !done {
            assert(gitems.subrange(0, gitems.len() as int) =~= gitems);
        }
    }
    attrs
}

} // verus!
