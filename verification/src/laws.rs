//! Properties of the resolution and tag-building pipeline, stated over the
//! spec functions that the public contracts use.

use vstd::prelude::*;

use crate::attr::{Color, Font, Location, TextAttr, TextDeco, TextItem};
use crate::resolved::ResolvedTextAttrs;
use crate::stack::{
    lemma_resolve_push, spec_last_match, spec_pop, spec_resolve, spec_resolve_attrs,
    spec_resolve_deco, Entry, TextAttrs,
};
use crate::tree::{spec_built, spec_leaves, spec_span_attrs, Identifier, Node, Tag};

verus! {

/// Resolving twice with no intervening push or pop and identical run
/// parameters returns the identical result, and the second resolution
/// leaves the stack (memo included) exactly as the first left it.
pub proof fn lemma_resolve_idempotent(s: TextAttrs, text: TextItem)
    ensures
        spec_resolve(spec_resolve(s, text).0, text) == spec_resolve(s, text),
{
}

/// After a mutation has discarded the memo, resolution reflects the log as
/// it now stands: a value cached before the mutation is never returned.
pub proof fn lemma_resolve_after_invalidation(s: TextAttrs, text: TextItem)
    requires
        s.last_resolved is None,
    ensures
        spec_resolve(s, text).1 == spec_resolve_attrs(s.items@, text.font, text.size as int),
{
}

/// Popping the most recently pushed of two nested Strong scopes leaves
/// strong still decided to true by the outer scope's entry.
pub proof fn lemma_innermost_strong_survives_pop(
    items: Seq<Entry>,
    a: Location,
    b: Location,
    font: Font,
    size: int,
)
    ensures
        ({
            let pushed = items.push((a, TextAttr::Strong)).push((b, TextAttr::Strong));
            spec_resolve_attrs(spec_pop(pushed, b), font, size).strong == Some(true)
        }),
{
    let outer = items.push((a, TextAttr::Strong));
    let pushed = outer.push((b, TextAttr::Strong));
    assert(pushed.last() == (b, TextAttr::Strong));
    assert(spec_last_match(pushed, b) == Some(pushed.len() - 1));
    assert(pushed.remove(pushed.len() - 1) =~= outer);
    lemma_resolve_push(items, (a, TextAttr::Strong), font, size);
}

/// Of two active decorations the most recently pushed, not yet popped one
/// decides the decoration axis: first the inner one, and after the inner
/// scope is popped, the outer one again.
pub proof fn lemma_innermost_deco_wins(
    items: Seq<Entry>,
    la: Location,
    lb: Location,
    d1: TextDeco,
    d2: TextDeco,
    font: Font,
    size: int,
)
    ensures
        ({
            let pushed = items.push((la, TextAttr::Deco(d1))).push((lb, TextAttr::Deco(d2)));
            &&& spec_resolve_attrs(pushed, font, size).deco == Some(spec_resolve_deco(d2, size))
            &&& spec_resolve_attrs(spec_pop(pushed, lb), font, size).deco == Some(
                spec_resolve_deco(d1, size),
            )
        }),
{
    let outer = items.push((la, TextAttr::Deco(d1)));
    let pushed = outer.push((lb, TextAttr::Deco(d2)));
    lemma_resolve_push(outer, (lb, TextAttr::Deco(d2)), font, size);
    assert(pushed.last() == (lb, TextAttr::Deco(d2)));
    assert(spec_last_match(pushed, lb) == Some(pushed.len() - 1));
    assert(pushed.remove(pushed.len() - 1) =~= outer);
    lemma_resolve_push(items, (la, TextAttr::Deco(d1)), font, size);
}

/// Style axes are independent: a highlight and a Strong pushed for
/// different scopes both show up in the resolved style, and popping either
/// scope leaves the other axis decided as before.
pub proof fn lemma_axis_independence(
    items: Seq<Entry>,
    lh: Location,
    ls: Location,
    color: Option<Color>,
    font: Font,
    size: int,
)
    requires
        lh != ls,
    ensures
        ({
            let pushed = items.push((lh, TextAttr::Highlight(color))).push((ls, TextAttr::Strong));
            &&& spec_resolve_attrs(pushed, font, size).strong == Some(true)
            &&& spec_resolve_attrs(pushed, font, size).background == Some(color)
            &&& spec_resolve_attrs(spec_pop(pushed, ls), font, size).background == Some(color)
            &&& spec_resolve_attrs(spec_pop(pushed, lh), font, size).strong == Some(true)
        }),
{
    let highlighted = items.push((lh, TextAttr::Highlight(color)));
    let pushed = highlighted.push((ls, TextAttr::Strong));
    lemma_resolve_push(highlighted, (ls, TextAttr::Strong), font, size);
    lemma_resolve_push(items, (lh, TextAttr::Highlight(color)), font, size);

    // Popping the Strong scope removes the last entry and leaves the
    // highlight on top.
    assert(pushed.last() == (ls, TextAttr::Strong));
    assert(spec_last_match(pushed, ls) == Some(pushed.len() - 1));
    assert(pushed.remove(pushed.len() - 1) =~= highlighted);

    // Popping the highlight scope removes the entry below the top and
    // leaves the Strong entry in place.
    assert(pushed.last().0 != lh);
    assert(pushed.drop_last() =~= highlighted);
    assert(spec_last_match(pushed, lh) == spec_last_match(highlighted, lh));
    assert(highlighted.len() == items.len() + 1);
    assert(highlighted.last() == (lh, TextAttr::Highlight(color)));
    assert(spec_last_match(highlighted, lh) == Some(items.len() as int));
    assert(spec_last_match(pushed, lh) == Some(items.len() as int));
    let strong_only = items.push((ls, TextAttr::Strong));
    assert(pushed.remove(items.len() as int) =~= strong_only);
    lemma_resolve_push(items, (ls, TextAttr::Strong), font, size);
}

/// With strong, emphasis and a decoration all set, the built tree is an
/// italic group containing a bold group containing a span group containing
/// exactly the original children, in that order.
pub proof fn lemma_tag_nesting_order(a: ResolvedTextAttrs, ids: Seq<Identifier>, nodes: Seq<Node>)
    requires
        a.strong == Some(true),
        a.emph == Some(true),
        a.deco is Some,
        spec_built(a, ids, nodes),
    ensures
        nodes.len() == 1,
        (nodes[0] matches Node::Group(em) && em.tag == Tag::Em && em.children@.len() == 1
            && (em.children@[0] matches Node::Group(strong) && strong.tag == Tag::Strong
            && strong.children@.len() == 1 && (strong.children@[0] matches Node::Group(span)
            && span.tag == Tag::Span(spec_span_attrs(a)) && spec_leaves(span.children@, ids)))),
{
}

/// An empty log resolves to the all-undecided style, and building the tag
/// tree for that style passes the children through unchanged, with no
/// wrapping group.
pub proof fn lemma_empty_passthrough(
    ids: Seq<Identifier>,
    nodes: Seq<Node>,
    font: Font,
    size: int,
)
    requires
        spec_built(ResolvedTextAttrs::spec_empty(), ids, nodes),
    ensures
        spec_resolve_attrs(Seq::<Entry>::empty(), font, size) == ResolvedTextAttrs::spec_empty(),
        spec_leaves(nodes, ids),
{
}

} // verus!
