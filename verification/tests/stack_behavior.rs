use text_tags::attr::{
    Color, Font, FontMetrics, Location, Options, Scope, ScriptKind, ScriptMetrics, Span, Stroke,
    TextAttr, TextDecoKind, TextItem,
};
use text_tags::geom::{Length, Smart, TextSize};
use text_tags::stack::TextAttrs;

fn font() -> Font {
    Font {
        index: 1,
        metrics: FontMetrics {
            subscript: ScriptMetrics {
                vertical_offset: Length { abs: 3, em: 1 },
                height: Length { abs: 4, em: 0 },
            },
            superscript: ScriptMetrics {
                vertical_offset: Length { abs: -2, em: 1 },
                height: Length { abs: 6, em: 0 },
            },
        },
    }
}

fn text() -> TextItem {
    TextItem { font: font(), size: 10 }
}

fn scope(n: u64) -> Scope {
    Scope { location: Location(n), span: Span(100 + n) }
}

fn strict() -> Options {
    Options { strict: true, validator: String::from("PDF/UA-1") }
}

fn lax() -> Options {
    Options { strict: false, validator: String::from("PDF/UA-1") }
}

#[test]
fn empty_stack_resolves_to_empty() {
    let mut s = TextAttrs::new();
    let r = s.resolve(&text());
    assert!(r.is_empty());
    assert_eq!(r.strong, None);
    assert_eq!(r.emph, None);
    assert_eq!(r.script, None);
    assert_eq!(r.background, None);
    assert_eq!(r.deco, None);
}

#[test]
fn resolve_is_idempotent_without_mutation() {
    let mut s = TextAttrs::new();
    s.push(scope(1), TextAttr::Strong);
    s.push_highlight(scope(2), Some(Color { red: 1, green: 2, blue: 3 }));
    let first = s.resolve(&text());
    let second = s.resolve(&text());
    assert_eq!(first, second);
    // and the memo is returned unchanged for equal parameters
    let third = s.resolve(&text());
    assert_eq!(first, third);
}

#[test]
fn memo_is_keyed_on_font_identity_and_size() {
    let mut s = TextAttrs::new();
    s.push_script(scope(1), ScriptKind::Sub, Smart::Auto, Smart::Auto);
    let r_small = s.resolve(&TextItem { font: font(), size: 10 });
    let r_large = s.resolve(&TextItem { font: font(), size: 20 });
    // a different size recomputes: the metric-derived values scale
    let sc_small = r_small.script.unwrap();
    let sc_large = r_large.script.unwrap();
    assert_eq!(sc_small.baseline_shift, 13); // 3 + 1 * 10
    assert_eq!(sc_large.baseline_shift, 23); // 3 + 1 * 20
    assert_eq!(sc_small.lineheight, 4);
    assert_eq!(sc_large.lineheight, 4);
}

#[test]
fn push_invalidates_cache() {
    let mut s = TextAttrs::new();
    let before = s.resolve(&text());
    assert_eq!(before.background, None);
    s.push_highlight(scope(1), Some(Color { red: 9, green: 9, blue: 9 }));
    let after = s.resolve(&text());
    assert_eq!(after.background, Some(Some(Color { red: 9, green: 9, blue: 9 })));
}

#[test]
fn pop_invalidates_cache() {
    let mut s = TextAttrs::new();
    s.push(scope(1), TextAttr::Strong);
    let before = s.resolve(&text());
    assert_eq!(before.strong, Some(true));
    s.pop(Location(1));
    let after = s.resolve(&text());
    assert_eq!(after.strong, None);
}

#[test]
fn innermost_strong_survives_popping_inner_scope() {
    let mut s = TextAttrs::new();
    s.push(scope(1), TextAttr::Strong);
    s.push(scope(2), TextAttr::Strong);
    s.pop(Location(2));
    let r = s.resolve(&text());
    assert_eq!(r.strong, Some(true));
}

#[test]
fn innermost_decoration_wins_outside_strict_mode() {
    let mut s = TextAttrs::new();
    let opts = lax();
    s.push_deco(&opts, scope(1), TextDecoKind::Overline, Smart::Auto).unwrap();
    s.push_deco(&opts, scope(2), TextDecoKind::Underline, Smart::Auto).unwrap();
    let r = s.resolve(&text());
    assert_eq!(r.deco.unwrap().kind, TextDecoKind::Underline);
    // popping the inner decoration reveals the outer one again
    assert!(s.pop(Location(2)));
    let r = s.resolve(&text());
    assert_eq!(r.deco.unwrap().kind, TextDecoKind::Overline);
}

#[test]
fn axes_are_independent() {
    let mut s = TextAttrs::new();
    let color = Some(Color { red: 10, green: 20, blue: 30 });
    s.push_highlight(scope(1), color);
    s.push(scope(2), TextAttr::Strong);
    let r = s.resolve(&text());
    assert_eq!(r.strong, Some(true));
    assert_eq!(r.background, Some(color));
    // popping the Strong scope leaves the highlight decided
    s.pop(Location(2));
    let r = s.resolve(&text());
    assert_eq!(r.strong, None);
    assert_eq!(r.background, Some(color));
    // and on the other branch, popping the highlight leaves Strong decided
    let mut s = TextAttrs::new();
    s.push_highlight(scope(1), color);
    s.push(scope(2), TextAttr::Strong);
    s.pop(Location(1));
    let r = s.resolve(&text());
    assert_eq!(r.strong, Some(true));
    assert_eq!(r.background, None);
}

#[test]
fn strict_mode_rejects_conflicting_decorations() {
    let mut s = TextAttrs::new();
    let opts = strict();
    s.push_deco(&opts, scope(1), TextDecoKind::Overline, Smart::Auto).unwrap();
    let err = s.push_deco(&opts, scope(2), TextDecoKind::Underline, Smart::Auto).unwrap_err();
    assert_eq!(err.span, Span(102));
    assert_eq!(err.validator, String::from("PDF/UA-1"));
    // the failed push left the stack unchanged
    let r = s.resolve(&text());
    assert_eq!(r.deco.unwrap().kind, TextDecoKind::Overline);
}

#[test]
fn strict_mode_allows_same_kind_twice() {
    let mut s = TextAttrs::new();
    let opts = strict();
    s.push_deco(&opts, scope(1), TextDecoKind::Underline, Smart::Auto).unwrap();
    s.push_deco(&opts, scope(2), TextDecoKind::Underline, Smart::Auto).unwrap();
    let r = s.resolve(&text());
    assert_eq!(r.deco.unwrap().kind, TextDecoKind::Underline);
}

#[test]
fn non_strict_mode_accepts_the_conflicting_sequence() {
    let mut s = TextAttrs::new();
    let opts = lax();
    s.push_deco(&opts, scope(1), TextDecoKind::Overline, Smart::Auto).unwrap();
    s.push_deco(&opts, scope(2), TextDecoKind::Underline, Smart::Auto).unwrap();
    let r = s.resolve(&text());
    assert_eq!(r.deco.unwrap().kind, TextDecoKind::Underline);
}

#[test]
fn pop_reports_whether_a_decoration_was_removed() {
    let mut s = TextAttrs::new();
    let opts = lax();
    s.push(scope(1), TextAttr::Strong);
    s.push_deco(&opts, scope(2), TextDecoKind::Strike, Smart::Auto).unwrap();
    assert!(s.pop(Location(2)));
    assert!(!s.pop(Location(1)));
}

#[test]
fn pop_of_unknown_location_is_a_noop() {
    let mut s = TextAttrs::new();
    s.push(scope(1), TextAttr::Emph);
    assert!(!s.pop(Location(42)));
    let r = s.resolve(&text());
    assert_eq!(r.emph, Some(true));
}

#[test]
fn pop_removes_only_the_most_recent_matching_entry() {
    let mut s = TextAttrs::new();
    // two entries for the same location: only the later one is removed
    s.push(scope(1), TextAttr::Strong);
    s.push(scope(1), TextAttr::Emph);
    s.pop(Location(1));
    let r = s.resolve(&text());
    assert_eq!(r.strong, Some(true));
    assert_eq!(r.emph, None);
}

#[test]
fn explicit_script_values_override_metrics() {
    let mut s = TextAttrs::new();
    s.push_script(
        scope(1),
        ScriptKind::Super,
        Smart::Custom(Length { abs: 5, em: 2 }),
        Smart::Custom(TextSize(Length { abs: 7, em: 1 })),
    );
    let r = s.resolve(&text());
    let sc = r.script.unwrap();
    // the user-given shift is sign-inverted: -(5 + 2 * 10)
    assert_eq!(sc.baseline_shift, -25);
    // the explicit line height is used as given: 7 + 1 * 10
    assert_eq!(sc.lineheight, 17);
}

#[test]
fn metric_derived_script_values_are_not_inverted() {
    let mut s = TextAttrs::new();
    s.push_script(scope(1), ScriptKind::Super, Smart::Auto, Smart::Auto);
    let r = s.resolve(&text());
    let sc = r.script.unwrap();
    // superscript vertical offset: -2 + 1 * 10
    assert_eq!(sc.baseline_shift, 8);
    assert_eq!(sc.lineheight, 6);
}

#[test]
fn decoration_stroke_is_resolved_at_the_run_size() {
    let mut s = TextAttrs::new();
    let opts = lax();
    let stroke = Stroke {
        paint: Smart::Custom(Some(Color { red: 255, green: 0, blue: 0 })),
        thickness: Smart::Custom(Length { abs: 2, em: 3 }),
    };
    s.push_deco(&opts, scope(1), TextDecoKind::Underline, Smart::Custom(stroke)).unwrap();
    let r = s.resolve(&text());
    let deco = r.deco.unwrap();
    assert_eq!(deco.kind, TextDecoKind::Underline);
    assert_eq!(deco.color, Some(Color { red: 255, green: 0, blue: 0 }));
    assert_eq!(deco.thickness, Some(32)); // 2 + 3 * 10
}

#[test]
fn auto_stroke_leaves_color_and_thickness_absent() {
    let mut s = TextAttrs::new();
    let opts = lax();
    s.push_deco(&opts, scope(1), TextDecoKind::Strike, Smart::Auto).unwrap();
    let r = s.resolve(&text());
    let deco = r.deco.unwrap();
    assert_eq!(deco.color, None);
    assert_eq!(deco.thickness, None);
}

#[test]
fn resolution_handles_the_largest_admitted_values() {
    // LEN_LIMIT is the largest admitted magnitude for length components
    // and sizes; the resolved value is exact at that extreme.
    let limit = text_tags::geom::LEN_LIMIT;
    let mut s = TextAttrs::new();
    s.push_script(
        scope(1),
        ScriptKind::Sub,
        Smart::Custom(Length { abs: limit, em: limit }),
        Smart::Custom(TextSize(Length { abs: -limit, em: -limit })),
    );
    let r = s.resolve(&TextItem { font: font(), size: limit });
    let sc = r.script.unwrap();
    assert_eq!(sc.baseline_shift, -(limit + limit * limit));
    assert_eq!(sc.lineheight, -limit - limit * limit);
}

#[test]
fn highlight_with_no_fill_is_still_decided() {
    let mut s = TextAttrs::new();
    s.push_highlight(scope(1), None);
    let r = s.resolve(&text());
    assert_eq!(r.background, Some(None));
    assert!(!r.is_empty());
}

#[test]
fn inner_highlight_shadows_outer_highlight() {
    let mut s = TextAttrs::new();
    s.push_highlight(scope(1), Some(Color { red: 1, green: 1, blue: 1 }));
    s.push_highlight(scope(2), Some(Color { red: 2, green: 2, blue: 2 }));
    let r = s.resolve(&text());
    assert_eq!(r.background, Some(Some(Color { red: 2, green: 2, blue: 2 })));
}
