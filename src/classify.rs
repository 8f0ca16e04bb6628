use vstd::prelude::*;
use crate::syntax::{NodeKind, SyntaxTree};

verus! {

/// The semantic shape of the token under the cursor, with the nodes (arena
/// indices) and names that resolving it needs.
#[derive(Debug)]
pub enum Classification {
    /// An identifier used as an expression; `expr` is the name-reference node.
    NameReference { expr: usize, name: String },
    /// The name after the dot of `base.field`.
    FieldAccess { base: usize, field: String },
    /// The name of a function definition.
    Definition { def: usize },
    /// The name of a formal parameter.
    Parameter { param: usize, name: String },
    /// The keyword of a call argument `call(name = ...)`.
    CallArgument { call: usize, name: String },
    /// A name in a type annotation.
    TypeReference { ty: usize },
    /// A name of a `load` statement.
    ImportItem { item: usize },
}

/// The text of the token at `i`, if there is one.
pub open spec fn token_text(t: SyntaxTree, i: Option<usize>) -> Option<String> {
    match i {
        Some(i) => match t.token_at(i as int) {
            Some(tok) => Some(tok.text),
            None => None,
        },
        None => None,
    }
}

/// The call expression that holds the argument node `arg`: argument, then
/// argument list, then call; `None` if a link is missing or of another kind.
pub open spec fn enclosing_call(t: SyntaxTree, arg: usize) -> Option<usize> {
    match t.node_at(arg as int) {
        Some(a) => match a.parent {
            Some(list) => match t.node_at(list as int) {
                Some(l) => match (l.kind, l.parent) {
                    (NodeKind::Arguments, Some(call)) => match t.node_at(call as int) {
                        Some(c) => if c.kind == NodeKind::CallExpr {
                            Some(call)
                        } else {
                            None
                        },
                        None => None,
                    },
                    _ => None,
                },
                None => None,
            },
            None => None,
        },
        None => None,
    }
}

/// How a declared name is used, decided by the node above the name node.
pub open spec fn classify_name(t: SyntaxTree, name_node: usize, text: String) -> Option<Classification> {
    match t.node_at(name_node as int) {
        Some(n) => match n.parent {
            Some(gp) => match t.node_at(gp as int) {
                Some(g) => match g.kind {
                    NodeKind::DotExpr { base } => match base {
                        Some(b) => Some(Classification::FieldAccess { base: b, field: text }),
                        None => None,
                    },
                    NodeKind::DefStmt => Some(Classification::Definition { def: gp }),
                    NodeKind::Parameter => Some(Classification::Parameter { param: gp, name: text }),
                    NodeKind::Argument => match enclosing_call(t, gp) {
                        Some(call) => Some(Classification::CallArgument { call, name: text }),
                        None => None,
                    },
                    _ => None,
                },
                None => None,
            },
            None => None,
        },
        None => None,
    }
}

/// The classification of the (non-keyword) token at index `tok`, decided by
/// the shape of its parent node and, for a declared name, its grandparent.
pub open spec fn spec_classify(t: SyntaxTree, tok: int) -> Option<Classification> {
    let p = t.tokens@[tok].parent;
    match t.node_at(p as int) {
        Some(parent) => match parent.kind {
            NodeKind::NameRef { ident } => match token_text(t, ident) {
                Some(text) => Some(Classification::NameReference { expr: p, name: text }),
                None => None,
            },
            NodeKind::Name { ident } => match token_text(t, ident) {
                Some(text) => classify_name(t, p, text),
                None => None,
            },
            NodeKind::NamedType => Some(Classification::TypeReference { ty: p }),
            NodeKind::LoadItem => Some(Classification::ImportItem { item: p }),
            _ => None,
        },
        None => None,
    }
}

fn ident_text(t: &SyntaxTree, i: Option<usize>) -> (r: Option<String>)
    ensures
        r == token_text(*t, i),
{
    match i {
        Some(i) => {
            if i < t.tokens.len() {
                Some(t.tokens[i].text.clone())
            } else {
                None
            }
        },
        None => None,
    }
}

fn call_of_argument(t: &SyntaxTree, arg: usize) -> (r: Option<usize>)
    ensures
        r == enclosing_call(*t, arg),
{
    let list = t.parent_of(arg)?;
    let l = t.node(list)?;
    match (l.kind, l.parent) {
        (NodeKind::Arguments, Some(call)) => {
            let c = t.node(call)?;
            if c.kind == NodeKind::CallExpr {
                Some(call)
            } else {
                None
            }
        },
        _ => None,
    }
}

fn classify_declared_name(t: &SyntaxTree, name_node: usize, text: String) -> (r: Option<Classification>)
    ensures
        r == classify_name(*t, name_node, text),
{
    let gp = t.parent_of(name_node)?;
    let g = t.node(gp)?;
    match g.kind {
        NodeKind::DotExpr { base } => match base {
            Some(b) => Some(Classification::FieldAccess { base: b, field: text }),
            None => None,
        },
        NodeKind::DefStmt => Some(Classification::Definition { def: gp }),
        NodeKind::Parameter => Some(Classification::Parameter { param: gp, name: text }),
        NodeKind::Argument => match call_of_argument(t, gp) {
            Some(call) => Some(Classification::CallArgument { call, name: text }),
            None => None,
        },
        _ => None,
    }
}

/// Classifies the token at index `tok` by the syntax around it; `None` when
/// no shape that hover knows matches or a link of the tree is missing.
pub fn classify(t: &SyntaxTree, tok: usize) -> (r: Option<Classification>)
    requires
        tok < t.tokens@.len(),
    ensures
        r == spec_classify(*t, tok as int),
{
    let p = t.tokens[tok].parent;
    let parent = t.node(p)?;
    match parent.kind {
        NodeKind::NameRef { ident } => {
            let text = ident_text(t, ident)?;
            Some(Classification::NameReference { expr: p, name: text })
        },
        NodeKind::Name { ident } => {
            let text = ident_text(t, ident)?;
            classify_declared_name(t, p, text)
        },
        NodeKind::NamedType => Some(Classification::TypeReference { ty: p }),
        NodeKind::LoadItem => Some(Classification::ImportItem { item: p }),
        _ => None,
    }
}

} // verus!
