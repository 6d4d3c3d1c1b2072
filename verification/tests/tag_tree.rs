use text_tags::attr::{Color, TextDecoKind};
use text_tags::resolved::{ResolvedScript, ResolvedTextAttrs, ResolvedTextDeco};
use text_tags::tree::{Identifier, Node, Tag};

fn children() -> Vec<Identifier> {
    vec![Identifier(7), Identifier(8)]
}

fn unwrap_group(node: &Node) -> (&Tag, &Vec<Node>) {
    match node {
        Node::Group(g) => (&g.tag, &g.children),
        Node::Leaf(_) => panic!("expected a group"),
    }
}

#[test]
fn empty_style_passes_children_through() {
    let style = ResolvedTextAttrs::empty();
    let mut accum: Vec<Node> = Vec::new();
    style.resolve_nodes(&mut accum, children());
    assert_eq!(accum, vec![Node::Leaf(Identifier(7)), Node::Leaf(Identifier(8))]);
}

#[test]
fn full_style_nests_italic_bold_span_in_that_order() {
    let style = ResolvedTextAttrs {
        strong: Some(true),
        emph: Some(true),
        script: None,
        background: None,
        deco: Some(ResolvedTextDeco {
            kind: TextDecoKind::Underline,
            color: None,
            thickness: None,
        }),
    };
    let mut accum: Vec<Node> = Vec::new();
    style.resolve_nodes(&mut accum, children());

    assert_eq!(accum.len(), 1);
    let (em_tag, em_children) = unwrap_group(&accum[0]);
    assert_eq!(*em_tag, Tag::Em);
    assert_eq!(em_children.len(), 1);
    let (strong_tag, strong_children) = unwrap_group(&em_children[0]);
    assert_eq!(*strong_tag, Tag::Strong);
    assert_eq!(strong_children.len(), 1);
    let (span_tag, span_children) = unwrap_group(&strong_children[0]);
    match span_tag {
        Tag::Span(attrs) => {
            assert_eq!(attrs.deco_type, Some(TextDecoKind::Underline));
            assert_eq!(attrs.deco_color, None);
            assert_eq!(attrs.deco_thickness, None);
            assert_eq!(attrs.line_height, None);
            assert_eq!(attrs.baseline_shift, None);
            assert_eq!(attrs.background_color, None);
        }
        _ => panic!("expected a span tag"),
    }
    assert_eq!(*span_children, vec![Node::Leaf(Identifier(7)), Node::Leaf(Identifier(8))]);
}

#[test]
fn strong_alone_wraps_leaves_directly() {
    let style = ResolvedTextAttrs {
        strong: Some(true),
        emph: None,
        script: None,
        background: None,
        deco: None,
    };
    let mut accum: Vec<Node> = Vec::new();
    style.resolve_nodes(&mut accum, children());
    assert_eq!(accum.len(), 1);
    let (tag, inner) = unwrap_group(&accum[0]);
    assert_eq!(*tag, Tag::Strong);
    assert_eq!(*inner, vec![Node::Leaf(Identifier(7)), Node::Leaf(Identifier(8))]);
}

#[test]
fn emphasis_alone_wraps_leaves_directly() {
    let style = ResolvedTextAttrs {
        strong: None,
        emph: Some(true),
        script: None,
        background: None,
        deco: None,
    };
    let mut accum: Vec<Node> = Vec::new();
    style.resolve_nodes(&mut accum, children());
    assert_eq!(accum.len(), 1);
    let (tag, inner) = unwrap_group(&accum[0]);
    assert_eq!(*tag, Tag::Em);
    assert_eq!(*inner, vec![Node::Leaf(Identifier(7)), Node::Leaf(Identifier(8))]);
}

#[test]
fn span_group_carries_all_set_values() {
    let style = ResolvedTextAttrs {
        strong: None,
        emph: None,
        script: Some(ResolvedScript { baseline_shift: -25, lineheight: 17 }),
        background: Some(Some(Color { red: 4, green: 5, blue: 6 })),
        deco: Some(ResolvedTextDeco {
            kind: TextDecoKind::Strike,
            color: Some(Color { red: 9, green: 9, blue: 9 }),
            thickness: Some(32),
        }),
    };
    let mut accum: Vec<Node> = Vec::new();
    style.resolve_nodes(&mut accum, children());
    assert_eq!(accum.len(), 1);
    let (tag, inner) = unwrap_group(&accum[0]);
    match tag {
        Tag::Span(attrs) => {
            assert_eq!(attrs.line_height, Some(17));
            assert_eq!(attrs.baseline_shift, Some(-25));
            assert_eq!(attrs.background_color, Some(Color { red: 4, green: 5, blue: 6 }));
            assert_eq!(attrs.deco_type, Some(TextDecoKind::Strike));
            assert_eq!(attrs.deco_color, Some(Color { red: 9, green: 9, blue: 9 }));
            assert_eq!(attrs.deco_thickness, Some(32));
        }
        _ => panic!("expected a span tag"),
    }
    assert_eq!(*inner, vec![Node::Leaf(Identifier(7)), Node::Leaf(Identifier(8))]);
}

#[test]
fn strong_false_is_treated_as_unset() {
    let style = ResolvedTextAttrs {
        strong: Some(false),
        emph: None,
        script: None,
        background: None,
        deco: None,
    };
    let mut accum: Vec<Node> = Vec::new();
    style.resolve_nodes(&mut accum, children());
    assert_eq!(accum, vec![Node::Leaf(Identifier(7)), Node::Leaf(Identifier(8))]);
}

#[test]
fn builder_appends_after_existing_nodes() {
    let style = ResolvedTextAttrs {
        strong: Some(true),
        emph: None,
        script: None,
        background: None,
        deco: None,
    };
    let mut accum: Vec<Node> = vec![Node::Leaf(Identifier(1))];
    style.resolve_nodes(&mut accum, vec![Identifier(2)]);
    assert_eq!(accum.len(), 2);
    assert_eq!(accum[0], Node::Leaf(Identifier(1)));
    let (tag, inner) = unwrap_group(&accum[1]);
    assert_eq!(*tag, Tag::Strong);
    assert_eq!(*inner, vec![Node::Leaf(Identifier(2))]);
}

#[test]
fn empty_children_with_empty_style_stay_empty() {
    let style = ResolvedTextAttrs::empty();
    let mut accum: Vec<Node> = Vec::new();
    style.resolve_nodes(&mut accum, Vec::new());
    assert!(accum.is_empty());
}

#[test]
fn all_resolved_and_is_empty_report_the_slots() {
    let mut style = ResolvedTextAttrs::empty();
    assert!(style.is_empty());
    assert!(!style.all_resolved());
    style.strong = Some(true);
    assert!(!style.is_empty());
    assert!(!style.all_resolved());
    style.emph = Some(false);
    style.script = Some(ResolvedScript { baseline_shift: 0, lineheight: 0 });
    style.background = Some(None);
    style.deco = Some(ResolvedTextDeco { kind: TextDecoKind::Underline, color: None, thickness: None });
    assert!(style.all_resolved());
}
