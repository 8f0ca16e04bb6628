use vstd::prelude::*;
use crate::classify::Classification;
use crate::hover::{spec_finish, start_outcome, Answer, Step};
use crate::keywords::keyword_doc;
use crate::markup::shows;
use crate::select::{
    any_touches, is_selected, lemma_identifier_inside_selected, lemma_only_token_inside,
    lemma_selected_unique, spec_priority,
};
use crate::syntax::{SyntaxTree, TokenKind};

verus! {

/// Hovering a keyword that has a fixed explanation, at any offset of its
/// span (its two ends included) where every other token touching the offset
/// is a bracket or trivia, gives exactly that explanation, decided at once:
/// the resolution engine is not asked.
pub proof fn lemma_keyword_hover(t: SyntaxTree, offset: usize, i: int, r: Step)
    requires
        0 <= i < t.tokens@.len(),
        t.tokens@[i].kind matches TokenKind::Keyword(k) && keyword_doc(k) is Some,
        t.tokens@[i].range.touches(offset),
        forall|j: int|
            0 <= j < t.tokens@.len() && j != i && #[trigger] t.tokens@[j].range.touches(offset)
                ==> spec_priority(t.tokens@[j].kind) == 0,
        start_outcome(t, offset, r),
    ensures
        r matches Step::Done(h) && (t.tokens@[i].kind matches TokenKind::Keyword(k) && shows(
            h,
            keyword_doc(k),
        )),
{
    let tokens = t.tokens@;
    assert(any_touches(tokens, offset));
    let j = choose|j: int| is_selected(tokens, offset, j) && crate::hover::step_for_token(t, j, r);
    assert(tokens[j].range.touches(offset));
    if j != i {
        assert(spec_priority(tokens[i].kind) <= spec_priority(tokens[j].kind));
    }
}

/// Hovering strictly inside a keyword that has a fixed explanation gives
/// exactly that explanation, without asking the resolution engine.
pub proof fn lemma_keyword_inside_hover(t: SyntaxTree, offset: usize, i: int, r: Step)
    requires
        t.tokens_ordered(),
        0 <= i < t.tokens@.len(),
        t.tokens@[i].kind matches TokenKind::Keyword(k) && keyword_doc(k) is Some,
        t.tokens@[i].range.strictly_contains(offset),
        start_outcome(t, offset, r),
    ensures
        r matches Step::Done(h) && (t.tokens@[i].kind matches TokenKind::Keyword(k) && shows(
            h,
            keyword_doc(k),
        )),
{
    lemma_only_token_inside(t, offset, i);
    lemma_keyword_hover(t, offset, i, r);
}

/// Hovering an identifier strictly inside its span asks about that
/// identifier's token whenever it can be classified, never a neighbour.
pub proof fn lemma_identifier_hover(t: SyntaxTree, offset: usize, i: int, r: Step)
    requires
        t.tokens_ordered(),
        0 <= i < t.tokens@.len(),
        t.tokens@[i].kind == TokenKind::Ident,
        t.tokens@[i].range.strictly_contains(offset),
        start_outcome(t, offset, r),
    ensures
        crate::hover::step_for_token(t, i, r),
{
    lemma_identifier_inside_selected(t, offset, i);
    let j = choose|j: int| is_selected(t.tokens@, offset, j) && crate::hover::step_for_token(t, j, r);
    lemma_selected_unique(t.tokens@, offset, i, j);
}

/// An offset that no token touches (past the end of the text, or in a gap
/// that nothing was parsed from) gives no hover, decided without asking the
/// resolution engine.
pub proof fn lemma_no_token_no_hover(t: SyntaxTree, offset: usize, r: Step)
    requires
        !any_touches(t.tokens@, offset) || forall|j: int|
            0 <= j < t.tokens@.len() ==> #[trigger] t.tokens@[j].range.end < offset,
        start_outcome(t, offset, r),
    ensures
        r == Step::Done(None),
{
    if any_touches(t.tokens@, offset) {
        let j = choose|j: int| 0 <= j < t.tokens@.len() && #[trigger] t.tokens@[j].range.touches(offset);
        assert(t.tokens@[j].range.end < offset);
    }
}

/// When the resolution engine cannot resolve what a classification asks
/// about (an expression whose type is not inferable, an unresolved call,
/// type or import), there is no hover.
pub proof fn lemma_unresolved_no_hover(c: Classification)
    ensures
        spec_finish(c, Answer::Symbol(None)) is None,
        spec_finish(c, Answer::Members(None)) is None,
        spec_finish(c, Answer::Import(None)) is None,
{
}

} // verus!
