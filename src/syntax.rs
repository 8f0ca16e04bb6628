use vstd::prelude::*;

verus! {

/// A half-open span `[start, end)` of offsets into the source text.
#[derive(Clone, Copy, Debug, PartialEq, Eq, Structural)]
pub struct TextRange {
    pub start: usize,
    pub end: usize,
}

impl TextRange {
    /// The span touches `offset` when the offset lies inside it or on one of
    /// its two ends.
    pub open spec fn touches(self, offset: usize) -> bool {
        self.start <= offset && offset <= self.end
    }

    /// The offset lies strictly between the two ends.
    pub open spec fn strictly_contains(self, offset: usize) -> bool {
        self.start < offset && offset < self.end
    }
}

/// The reserved words of the language.
#[derive(Clone, Copy, Debug, PartialEq, Eq, Structural)]
pub enum Keyword {
    And,
    Break,
    Continue,
    Def,
    Elif,
    Else,
    For,
    If,
    In,
    Lambda,
    Load,
    Not,
    Or,
    Pass,
    Return,
}

/// The kind tag of a token.
#[derive(Clone, Copy, Debug, PartialEq, Eq, Structural)]
pub enum TokenKind {
    Ident,
    LParen,
    RParen,
    LBracket,
    RBracket,
    LBrace,
    RBrace,
    /// Whitespace, newlines and comments.
    Trivia,
    Keyword(Keyword),
    /// Operators, literals and the remaining punctuation.
    Other,
}

/// A leaf of the syntax tree.
#[derive(Debug)]
pub struct Token {
    pub kind: TokenKind,
    pub range: TextRange,
    pub text: String,
    /// Index of the enclosing node in the tree's node arena.
    pub parent: usize,
}

/// The syntactic shape of an interior node, with the links that hover needs.
/// Links are indices into the tree's arenas: `ident` into the tokens,
/// `base` into the nodes.
#[derive(Clone, Copy, Debug, PartialEq, Eq, Structural)]
pub enum NodeKind {
    /// An identifier used as an expression.
    NameRef { ident: Option<usize> },
    /// A declared name (a field after a dot, a function name, a parameter,
    /// an argument keyword).
    Name { ident: Option<usize> },
    /// A member access `base.name`.
    DotExpr { base: Option<usize> },
    DefStmt,
    Parameter,
    Argument,
    Arguments,
    CallExpr,
    /// A name in a type annotation.
    NamedType,
    /// An item of a `load` statement.
    LoadItem,
    Other,
}

/// An interior node of the syntax tree.
#[derive(Clone, Copy, Debug, PartialEq, Eq, Structural)]
pub struct Node {
    pub kind: NodeKind,
    pub parent: Option<usize>,
}

/// An immutable syntax tree held in two arenas; nodes and tokens refer to
/// each other by index.
#[derive(Debug)]
pub struct SyntaxTree {
    pub tokens: Vec<Token>,
    pub nodes: Vec<Node>,
}

impl SyntaxTree {
    /// Tokens are stored in source order and their spans do not overlap.
    pub open spec fn tokens_ordered(&self) -> bool {
        forall|i: int, j: int|
            0 <= i < j < self.tokens@.len() ==> #[trigger] self.tokens@[i].range.end
                <= #[trigger] self.tokens@[j].range.start
    }

    /// The node at index `i`, if there is one.
    pub open spec fn node_at(&self, i: int) -> Option<Node> {
        if 0 <= i < self.nodes@.len() {
            Some(self.nodes@[i])
        } else {
            None
        }
    }

    /// The token at index `i`, if there is one.
    pub open spec fn token_at(&self, i: int) -> Option<Token> {
        if 0 <= i < self.tokens@.len() {
            Some(self.tokens@[i])
        } else {
            None
        }
    }

    /// Looks up a node by index; a dangling index gives `None`.
    pub fn node(&self, i: usize) -> (r: Option<Node>)
        ensures
            r == self.node_at(i as int),
    {
        if i < self.nodes.len() {
            Some(self.nodes[i])
        } else {
            None
        }
    }

    /// Looks up the parent of the node at `i`.
    pub fn parent_of(&self, i: usize) -> (r: Option<usize>)
        ensures
            r == (match self.node_at(i as int) {
                Some(n) => n.parent,
                None => None,
            }),
    {
        match self.node(i) {
            Some(n) => n.parent,
            None => None,
        }
    }
}

} // verus!
