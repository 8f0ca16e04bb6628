use vstd::prelude::*;
use crate::syntax::{SyntaxTree, Token, TokenKind};

verus! {

/// How strongly a token of this kind attracts the cursor: identifiers most,
/// brackets and trivia least, everything else in between.
pub open spec fn spec_priority(kind: TokenKind) -> nat {
    match kind {
        TokenKind::Ident => 2,
        TokenKind::LParen | TokenKind::RParen | TokenKind::LBracket | TokenKind::RBracket
        | TokenKind::LBrace | TokenKind::RBrace | TokenKind::Trivia => 0,
        _ => 1,
    }
}

/// The priority of a token kind when picking the token under the cursor.
pub fn priority(kind: TokenKind) -> (r: u8)
    ensures
        r as nat == spec_priority(kind),
{
    match kind {
        TokenKind::Ident => 2,
        TokenKind::LParen | TokenKind::RParen | TokenKind::LBracket | TokenKind::RBracket
        | TokenKind::LBrace | TokenKind::RBrace | TokenKind::Trivia => 0,
        _ => 1,
    }
}

/// `i` is the token that the cursor at `offset` selects: it touches the
/// offset, no touching token has a higher priority, and every touching token
/// to its left has a lower one (ties go to the leftmost token).
pub open spec fn is_selected(tokens: Seq<Token>, offset: usize, i: int) -> bool {
    &&& 0 <= i < tokens.len()
    &&& tokens[i].range.touches(offset)
    &&& forall|j: int|
        0 <= j < tokens.len() && #[trigger] tokens[j].range.touches(offset) ==> spec_priority(
            tokens[j].kind,
        ) <= spec_priority(tokens[i].kind)
    &&& forall|j: int|
        0 <= j < i && #[trigger] tokens[j].range.touches(offset) ==> spec_priority(tokens[j].kind)
            < spec_priority(tokens[i].kind)
}

/// Some token touches the offset.
pub open spec fn any_touches(tokens: Seq<Token>, offset: usize) -> bool {
    exists|j: int| 0 <= j < tokens.len() && #[trigger] tokens[j].range.touches(offset)
}

/// Picks the token under the cursor: among the tokens whose span touches
/// `offset`, the one of highest priority, the leftmost on a tie. `None` when
/// no token touches the offset (past the end of the text, or in a gap that
/// nothing was parsed from).
pub fn pick_best_token(tree: &SyntaxTree, offset: usize) -> (r: Option<usize>)
    ensures
        r is None <==> !any_touches(tree.tokens@, offset),
        r matches Some(i) ==> is_selected(tree.tokens@, offset, i as int),
{
    let n = tree.tokens.len();
    let mut best: Option<usize> = None;
    let mut best_prio: u8 = 0;
    let mut k: usize = 0;
    while k < n
        invariant
            n == tree.tokens@.len(),
            k <= n,
            best is None <==> forall|j: int|
                0 <= j < k ==> !(#[trigger] tree.tokens@[j].range.touches(offset)),
            best matches Some(i) ==> {
                &&& i < k
                &&& tree.tokens@[i as int].range.touches(offset)
                &&& best_prio as nat == spec_priority(tree.tokens@[i as int].kind)
                &&& forall|j: int|
                    0 <= j < k && #[trigger] tree.tokens@[j].range.touches(offset)
                        ==> spec_priority(tree.tokens@[j].kind) <= best_prio
                &&& forall|j: int|
                    0 <= j < i && #[trigger] tree.tokens@[j].range.touches(offset)
                        ==> spec_priority(tree.tokens@[j].kind) < best_prio
            },
        decreases n - k,
    {
        let t = &tree.tokens[k];
        let touches = t.range.start <= offset && offset <= t.range.end;
        assert(touches == tree.tokens@[k as int].range.touches(offset));
        if touches {
            let p = priority(t.kind);
            match best {
                None => {
                    best = Some(k);
                    best_prio = p;
                },
                Some(_) => {
                    if p > best_prio {
                        best = Some(k);
                        best_prio = p;
                    }
                },
            }
        }
        k = k + 1;
    }
    best
}

/// At most one token is selected for an offset.
pub proof fn lemma_selected_unique(tokens: Seq<Token>, offset: usize, i: int, j: int)
    requires
        is_selected(tokens, offset, i),
        is_selected(tokens, offset, j),
    ensures
        i == j,
{
    if i < j {
        assert(tokens[i].range.touches(offset));
    } else if j < i {
        assert(tokens[j].range.touches(offset));
    }
}

/// In ordered tokens, an offset strictly inside a token's span touches no
/// other token.
pub proof fn lemma_only_token_inside(t: SyntaxTree, offset: usize, i: int)
    requires
        t.tokens_ordered(),
        0 <= i < t.tokens@.len(),
        t.tokens@[i].range.strictly_contains(offset),
    ensures
        forall|j: int|
            0 <= j < t.tokens@.len() && #[trigger] t.tokens@[j].range.touches(offset) ==> j == i,
{
    let tokens = t.tokens@;
    assert forall|j: int| 0 <= j < tokens.len() && #[trigger] tokens[j].range.touches(offset) implies j
        == i by {
        if j < i {
            assert(tokens[j].range.end <= tokens[i].range.start);
        } else if i < j {
            assert(tokens[i].range.end <= tokens[j].range.start);
        }
    }
}

/// An offset strictly inside an identifier's span selects that identifier,
/// whatever other tokens end or start around it.
pub proof fn lemma_identifier_inside_selected(t: SyntaxTree, offset: usize, i: int)
    requires
        t.tokens_ordered(),
        0 <= i < t.tokens@.len(),
        t.tokens@[i].kind == TokenKind::Ident,
        t.tokens@[i].range.strictly_contains(offset),
    ensures
        any_touches(t.tokens@, offset),
        forall|j: int| is_selected(t.tokens@, offset, j) <==> j == i,
{
    let tokens = t.tokens@;
    assert(tokens[i].range.touches(offset));
    lemma_only_token_inside(t, offset, i);
    assert(is_selected(tokens, offset, i));
    assert forall|j: int| is_selected(t.tokens@, offset, j) implies j == i by {
        lemma_selected_unique(tokens, offset, i, j);
    }
}

} // verus!
