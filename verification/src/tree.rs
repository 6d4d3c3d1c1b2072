//! The structural tag tree built from a resolved style: the children of a
//! run are wrapped in a span-level style group, then a bold group, then an
//! italic group, innermost to outermost, with a group emitted only for
//! axes that are actually set.

use vstd::prelude::*;

use crate::attr::{Color, TextDecoKind};
use crate::resolved::ResolvedTextAttrs;

verus! {

/// An opaque handle for an already-produced leaf content item.
#[derive(Clone, Copy, Debug, PartialEq, Eq, Structural)]
pub struct Identifier(pub u64);

/// The attributes a span-level style group carries; unset sub-fields are
/// omitted, not defaulted.
#[derive(Clone, Copy, Debug, PartialEq)]
pub struct SpanAttrs {
    pub line_height: Option<i64>,
    pub baseline_shift: Option<i64>,
    pub background_color: Option<Color>,
    pub deco_type: Option<TextDecoKind>,
    pub deco_color: Option<Color>,
    pub deco_thickness: Option<i64>,
}

/// The tag vocabulary this module emits.
#[derive(Clone, Copy, Debug, PartialEq)]
pub enum Tag {
    Span(SpanAttrs),
    Strong,
    Em,
}

/// A group node: a tag and its ordered children.
#[derive(Debug, PartialEq)]
pub struct TagGroup {
    pub tag: Tag,
    pub children: Vec<Node>,
}

/// A node of the output tree: a leaf handle or a tagged group.
#[derive(Debug, PartialEq)]
pub enum Node {
    Leaf(Identifier),
    Group(TagGroup),
}

/// The span-level attributes carried for a resolved style: every set value
/// among script, background and decoration.
pub open spec fn spec_span_attrs(a: ResolvedTextAttrs) -> SpanAttrs {
    SpanAttrs {
        line_height: match a.script {
            Some(s) => Some(s.lineheight),
            None => None,
        },
        baseline_shift: match a.script {
            Some(s) => Some(s.baseline_shift),
            None => None,
        },
        background_color: match a.background {
            Some(c) => c,
            None => None,
        },
        deco_type: match a.deco {
            Some(d) => Some(d.kind),
            None => None,
        },
        deco_color: match a.deco {
            Some(d) => d.color,
            None => None,
        },
        deco_thickness: match a.deco {
            Some(d) => d.thickness,
            None => None,
        },
    }
}

/// The given nodes are exactly the leaves for the given handles, in order.
pub open spec fn spec_leaves(nodes: Seq<Node>, ids: Seq<Identifier>) -> bool {
    &&& nodes.len() == ids.len()
    &&& forall|k: int| 0 <= k < ids.len() ==> nodes[k] == Node::Leaf(ids[k])
}

/// Whether a span-level style group is emitted: some of script, background
/// or decoration is set.
pub open spec fn spec_has_span(a: ResolvedTextAttrs) -> bool {
    a.script is Some || a.background is Some || a.deco is Some
}

/// The tree after the span stage: the leaves, wrapped in one span group
/// when any span-level axis is set.
pub open spec fn spec_span_stage(a: ResolvedTextAttrs, ids: Seq<Identifier>, nodes: Seq<Node>) -> bool {
    if spec_has_span(a) {
        &&& nodes.len() == 1
        &&& (nodes[0] matches Node::Group(g) && g.tag == Tag::Span(spec_span_attrs(a))
            && spec_leaves(g.children@, ids))
    } else {
        spec_leaves(nodes, ids)
    }
}

/// The tree after the bold stage: the span stage, wrapped in one bold
/// group when strong is set.
pub open spec fn spec_strong_stage(a: ResolvedTextAttrs, ids: Seq<Identifier>, nodes: Seq<Node>) -> bool {
    if a.strong == Some(true) {
        &&& nodes.len() == 1
        &&& (nodes[0] matches Node::Group(g) && g.tag == Tag::Strong && spec_span_stage(
            a,
            ids,
            g.children@,
        ))
    } else {
        spec_span_stage(a, ids, nodes)
    }
}

/// The finished tree: the bold stage, wrapped in one italic group,
/// outermost, when emphasis is set. A style with nothing set passes the
/// leaves through unchanged.
pub open spec fn spec_built(a: ResolvedTextAttrs, ids: Seq<Identifier>, nodes: Seq<Node>) -> bool {
    if a.emph == Some(true) {
        &&& nodes.len() == 1
        &&& (nodes[0] matches Node::Group(g) && g.tag == Tag::Em && spec_strong_stage(
            a,
            ids,
            g.children@,
        ))
    } else {
        spec_strong_stage(a, ids, nodes)
    }
}

impl ResolvedTextAttrs {
    /// Appends to `accum` the tag tree for this resolved style over the
    /// given children: a span-level style group, a bold group and an
    /// italic group, innermost to outermost, each emitted only when its
    /// axis is set; with nothing set, the children pass through unchanged.
    pub fn resolve_nodes(self, accum: &mut Vec<Node>, children: Vec<Identifier>)
        ensures
            final(accum)@.len() >= old(accum)@.len(),
            final(accum)@.take(old(accum)@.len() as int) == old(accum)@,
            spec_built(self, children@, final(accum)@.skip(old(accum)@.len() as int)),
    {
        let ghost base = old(accum)@;
        let span_set = self.script.is_some() || self.background.is_some() || self.deco.is_some();
        let strong_set = match self.strong {
            Some(b) => b,
            None => false,
        };
        let emph_set = match self.emph {
            Some(b) => b,
            None => false,
        };

        if !span_set && !strong_set && !emph_set {
            let mut i: usize = 0;
            while i < children.len()
                invariant
                    i <= children@.len(),
                    base == old(accum)@,
                    accum@.len() == base.len() + i,
                    accum@.take(base.len() as int) == base,
                    spec_leaves(accum@.skip(base.len() as int), children@.take(i as int)),
                decreases children@.len() - i,
            {
                let ghost prev = accum@;
                accum.push(Node::Leaf(children[i]));
                i += 1;
                proof {
                    assert(accum@.take(base.len() as int) =~= base);
                    assert(accum@.skip(base.len() as int) =~= prev.skip(base.len() as int).push(
                        Node::Leaf(children@[i as int - 1]),
                    ));
                    assert(spec_leaves(accum@.skip(base.len() as int), children@.take(i as int)));
                }
            }
            proof {
                assert(children@.take(children@.len() as int) =~= children@);
            }
            return ;
        }

        let mut nodes: Vec<Node> = Vec::new();
        let mut i: usize = 0;
        while i < children.len()
            invariant
                i <= children@.len(),
                nodes@.len() == i,
                spec_leaves(nodes@, children@.take(i as int)),
            decreases children@.len() - i,
        {
            nodes.push(Node::Leaf(children[i]));
            i += 1;
            proof {
                assert(spec_leaves(nodes@, children@.take(i as int)));
            }
        }
        proof {
            assert(children@.take(children@.len() as int) =~= children@);
        }

        if span_set {
            let line_height: Option<i64> = match self.script {
                Some(s) => Some(s.lineheight),
                None => None,
            };
            let baseline_shift: Option<i64> = match self.script {
                Some(s) => Some(s.baseline_shift),
                None => None,
            };
            let background_color: Option<Color> = match self.background {
                Some(c) => c,
                None => None,
            };
            let deco_type: Option<TextDecoKind> = match self.deco {
                Some(d) => Some(d.kind),
                None => None,
            };
            let deco_color: Option<Color> = match self.deco {
                Some(d) => d.color,
                None => None,
            };
            let deco_thickness: Option<i64> = match self.deco {
                Some(d) => d.thickness,
                None => None,
            };
            let attrs = SpanAttrs {
                line_height,
                baseline_shift,
                background_color,
                deco_type,
                deco_color,
                deco_thickness,
            };
            assert(attrs == spec_span_attrs(self));
            let group = TagGroup { tag: Tag::Span(attrs), children: nodes };
            let mut wrapped: Vec<Node> = Vec::new();
            wrapped.push(Node::Group(group));
            nodes = wrapped;
        }
        assert(spec_span_stage(self, children@, nodes@));
        assert(span_set ==> nodes@.len() == 1);

        if strong_set {
            let group = TagGroup { tag: Tag::Strong, children: nodes };
            let mut wrapped: Vec<Node> = Vec::new();
            wrapped.push(Node::Group(group));
            nodes = wrapped;
        }
        assert(spec_strong_stage(self, children@, nodes@));
        assert((span_set || strong_set) ==> nodes@.len() == 1);

        if emph_set {
            let group = TagGroup { tag: Tag::Em, children: nodes };
            let mut wrapped: Vec<Node> = Vec::new();
            wrapped.push(Node::Group(group));
            nodes = wrapped;
        }
        assert(spec_built(self, children@, nodes@));
        assert(nodes@.len() == 1);

        let node = match nodes.pop() {
            Some(n) => n,
            None => {
                proof {
                    assert(false);
                }
                return ;
            },
        };
        accum.push(node);
        proof {
            assert(accum@.take(base.len() as int) =~= base);
            assert(accum@.skip(base.len() as int) =~= seq![node]);
        }
    }
}

} // verus!
