use vstd::prelude::*;
use crate::classify::{classify, spec_classify, Classification};
use crate::keywords::{keyword_doc, keyword_text};
use crate::markup::{markup, render, shows, view_opt, Hover, Markup};
use crate::select::{any_touches, is_selected, pick_best_token};
use crate::syntax::{SyntaxTree, TokenKind};

verus! {

/// What the resolution engine reports about a symbol: its type as displayed,
/// whether that type can be called, and its documentation.
#[derive(Debug)]
pub struct Resolved {
    pub display: String,
    pub callable: bool,
    pub doc: Option<String>,
}

/// A named member of a resolved symbol: a field of a type, a parameter of a
/// callable, or an imported item. A parameter may have no name.
#[derive(Debug)]
pub struct Member {
    pub name: Option<String>,
    pub info: Resolved,
}

/// The resolution engine's answer to the query that a classification asks
/// for; `None` inside means the engine could not resolve it.
///
/// - name reference: `Symbol`, the type of the expression;
/// - field access: `Members`, the fields of the base expression's type;
/// - definition: `Symbol`, the callable defined;
/// - parameter: `Symbol`, the parameter's type;
/// - call argument: `Members`, the parameters of the called callable;
/// - type reference: `Symbol`, the type named;
/// - import item: `Import`, the imported name and its definition's type.
#[derive(Debug)]
pub enum Answer {
    Symbol(Option<Resolved>),
    Members(Option<Vec<Member>>),
    Import(Option<Member>),
}

/// The question that the resolution engine is asked about a classified
/// token; the fields are node indices of the syntax tree.
#[derive(Clone, Copy, Debug, PartialEq, Eq, Structural)]
pub enum Query {
    /// The type of an expression; answered by `Answer::Symbol`.
    TypeOfExpr { expr: usize },
    /// The fields of the type of an expression; answered by `Answer::Members`.
    FieldsOfExpr { expr: usize },
    /// The callable that a definition defines; answered by `Answer::Symbol`.
    CallableForDef { def: usize },
    /// The type of a formal parameter; answered by `Answer::Symbol`.
    TypeOfParam { param: usize },
    /// The parameters of the callable that a call calls; answered by
    /// `Answer::Members`.
    ParamsOfCall { call: usize },
    /// The type that an annotation names; answered by `Answer::Symbol`.
    ResolveType { ty: usize },
    /// The imported name of a `load` item and the type of its definition;
    /// answered by `Answer::Import`.
    LoadItemDef { item: usize },
}

/// The query that each classification needs.
pub open spec fn spec_query(c: Classification) -> Query {
    match c {
        Classification::NameReference { expr, .. } => Query::TypeOfExpr { expr },
        Classification::FieldAccess { base, .. } => Query::FieldsOfExpr { expr: base },
        Classification::Definition { def } => Query::CallableForDef { def },
        Classification::Parameter { param, .. } => Query::TypeOfParam { param },
        Classification::CallArgument { call, .. } => Query::ParamsOfCall { call },
        Classification::TypeReference { ty } => Query::ResolveType { ty },
        Classification::ImportItem { item } => Query::LoadItemDef { item },
    }
}

/// The query to put to the resolution engine for a classification; its
/// answer goes to `finish` together with the classification.
pub fn query_for(c: &Classification) -> (q: Query)
    ensures
        q == spec_query(*c),
{
    match c {
        Classification::NameReference { expr, .. } => Query::TypeOfExpr { expr: *expr },
        Classification::FieldAccess { base, .. } => Query::FieldsOfExpr { expr: *base },
        Classification::Definition { def } => Query::CallableForDef { def: *def },
        Classification::Parameter { param, .. } => Query::TypeOfParam { param: *param },
        Classification::CallArgument { call, .. } => Query::ParamsOfCall { call: *call },
        Classification::TypeReference { ty } => Query::ResolveType { ty: *ty },
        Classification::ImportItem { item } => Query::LoadItemDef { item: *item },
    }
}

/// One step of a hover query: either it is decided, or the resolution
/// engine has to be asked about the classified token first.
#[derive(Debug)]
pub enum Step {
    Done(Option<Hover>),
    Ask(Classification),
}

/// The first member named `name`, searching from index `i`.
pub open spec fn first_named_from(ms: Seq<Member>, name: Seq<char>, i: int) -> Option<int>
    decreases ms.len() - i,
{
    if i < 0 || i >= ms.len() {
        None
    } else if ms[i].name matches Some(n) && n@ == name {
        Some(i)
    } else {
        first_named_from(ms, name, i + 1)
    }
}

pub open spec fn first_named(ms: Seq<Member>, name: Seq<char>) -> Option<int> {
    first_named_from(ms, name, 0)
}

/// Markup for a variable or function bound to `name`: functions show their
/// signature alone, other values `name: type`.
pub open spec fn markup_for_name(name: Seq<char>, r: Resolved) -> Seq<char> {
    if r.callable {
        markup("function"@, None, r.display@, view_opt(r.doc))
    } else {
        markup("variable"@, Some(name), r.display@, view_opt(r.doc))
    }
}

/// The markup that a classification and the engine's answer to it give, or
/// `None` when the answer is missing, of the wrong shape, or has no member
/// of the wanted name.
pub open spec fn spec_finish(c: Classification, a: Answer) -> Option<Seq<char>> {
    match (c, a) {
        (Classification::NameReference { name, .. }, Answer::Symbol(Some(r))) => Some(
            markup_for_name(name@, r),
        ),
        (Classification::FieldAccess { field, .. }, Answer::Members(Some(ms))) => match first_named(
            ms@,
            field@,
        ) {
            Some(i) => {
                let f = ms@[i].info;
                if f.callable {
                    Some(markup("method"@, None, f.display@, view_opt(f.doc)))
                } else {
                    Some(markup("field"@, Some(field@), f.display@, view_opt(f.doc)))
                }
            },
            None => None,
        },
        (Classification::Definition { .. }, Answer::Symbol(Some(r))) => Some(
            markup("function"@, None, r.display@, view_opt(r.doc)),
        ),
        (Classification::Parameter { name, .. }, Answer::Symbol(Some(r))) => Some(
            markup("parameter"@, Some(name@), r.display@, None),
        ),
        (Classification::CallArgument { name, .. }, Answer::Members(Some(ms))) => match first_named(
            ms@,
            name@,
        ) {
            Some(i) => Some(
                markup("parameter"@, Some(name@), ms@[i].info.display@, view_opt(ms@[i].info.doc)),
            ),
            None => None,
        },
        (Classification::TypeReference { .. }, Answer::Symbol(Some(r))) => Some(
            markup("type"@, None, r.display@, view_opt(r.doc)),
        ),
        (Classification::ImportItem { .. }, Answer::Import(Some(m))) => match m.name {
            Some(n) => Some(markup_for_name(n@, m.info)),
            None => None,
        },
        _ => None,
    }
}

/// The step that the selected token at `i` leads to: a keyword's fixed text
/// (nothing for a keyword without one), or a question about its
/// classification, or nothing when it cannot be classified.
pub open spec fn step_for_token(t: SyntaxTree, i: int, r: Step) -> bool {
    match t.tokens@[i].kind {
        TokenKind::Keyword(k) => r matches Step::Done(h) && shows(h, keyword_doc(k)),
        _ => match spec_classify(t, i) {
            Some(c) => r == Step::Ask(c),
            None => r == Step::Done(None),
        },
    }
}

/// `r` is the first step of a hover query at `offset`: nothing when no
/// token touches the offset, else the step of the selected token.
pub open spec fn start_outcome(t: SyntaxTree, offset: usize, r: Step) -> bool {
    &&& !any_touches(t.tokens@, offset) ==> r == Step::Done(None)
    &&& any_touches(t.tokens@, offset) ==> exists|i: int|
        is_selected(t.tokens@, offset, i) && step_for_token(t, i, r)
}

/// The first step of a hover query at `offset`: selects the token under the
/// cursor; a keyword gives its fixed explanation at once, any other token is
/// classified for the resolution engine. Nothing under the cursor, or a
/// token of no known shape, gives no hover.
pub fn hover_start(t: &SyntaxTree, offset: usize) -> (r: Step)
    ensures
        start_outcome(*t, offset, r),
{
    match pick_best_token(t, offset) {
        None => Step::Done(None),
        Some(i) => {
            let r = match t.tokens[i].kind {
                TokenKind::Keyword(k) => {
                    match keyword_text(k) {
                        Some(text) => Step::Done(Some(Hover { contents: Markup { value: text }, range: None })),
                        None => Step::Done(None),
                    }
                },
                _ => match classify(t, i) {
                    Some(c) => Step::Ask(c),
                    None => Step::Done(None),
                },
            };
            assert(is_selected(t.tokens@, offset, i as int) && step_for_token(*t, i as int, r));
            r
        },
    }
}

fn find_named(ms: &Vec<Member>, name: &String) -> (r: Option<usize>)
    ensures
        match r {
            Some(i) => i < ms@.len() && first_named(ms@, name@) == Some(i as int),
            None => first_named(ms@, name@) is None,
        },
{
    let mut i: usize = 0;
    while i < ms.len()
        invariant
            i <= ms@.len(),
            first_named(ms@, name@) == first_named_from(ms@, name@, i as int),
        decreases ms@.len() - i,
    {
        match &ms[i].name {
            Some(n) => {
                if n.eq(name) {
                    return Some(i);
                }
            },
            None => {},
        }
        i = i + 1;
    }
    None
}

fn doc_str(d: &Option<String>) -> (r: Option<&str>)
    ensures
        match r {
            Some(s) => Some(s@) == view_opt(*d),
            None => view_opt(*d) is None,
        },
{
    match d {
        Some(s) => Some(s.as_str()),
        None => None,
    }
}

fn for_name(name: &str, r: &Resolved) -> (s: String)
    ensures
        s@ == markup_for_name(name@, *r),
{
    if r.callable {
        render("function", None, r.display.as_str(), doc_str(&r.doc))
    } else {
        render("variable", Some(name), r.display.as_str(), doc_str(&r.doc))
    }
}

/// The last step of a hover query: renders the markup for a classification
/// from the resolution engine's answer to it. An unresolved answer, an answer
/// of another shape or a missing member gives no hover.
pub fn finish(c: &Classification, a: &Answer) -> (r: Option<Hover>)
    ensures
        shows(r, spec_finish(*c, *a)),
{
    let text = match (c, a) {
        (Classification::NameReference { name, .. }, Answer::Symbol(Some(r))) => {
            for_name(name.as_str(), r)
        },
        (Classification::FieldAccess { field, .. }, Answer::Members(Some(ms))) => {
            let i = find_named(ms, field)?;
            let f = &ms[i].info;
            if f.callable {
                render("method", None, f.display.as_str(), doc_str(&f.doc))
            } else {
                render("field", Some(field.as_str()), f.display.as_str(), doc_str(&f.doc))
            }
        },
        (Classification::Definition { .. }, Answer::Symbol(Some(r))) => {
            render("function", None, r.display.as_str(), doc_str(&r.doc))
        },
        (Classification::Parameter { name, .. }, Answer::Symbol(Some(r))) => {
            render("parameter", Some(name.as_str()), r.display.as_str(), None)
        },
        (Classification::CallArgument { name, .. }, Answer::Members(Some(ms))) => {
            let i = find_named(ms, name)?;
            let p = &ms[i].info;
            render("parameter", Some(name.as_str()), p.display.as_str(), doc_str(&p.doc))
        },
        (Classification::TypeReference { .. }, Answer::Symbol(Some(r))) => {
            render("type", None, r.display.as_str(), doc_str(&r.doc))
        },
        (Classification::ImportItem { .. }, Answer::Import(Some(m))) => match &m.name {
            Some(n) => for_name(n.as_str(), &m.info),
            None => {
                return None;
            },
        },
        _ => {
            return None;
        },
    };
    Some(Hover { contents: Markup { value: text }, range: None })
}

} // verus!
