use starpls_ide::classify::{classify, Classification};
use starpls_ide::hover::{finish, hover_start, query_for, Answer, Member, Query, Resolved, Step};
use starpls_ide::keywords::{BREAK_DOCS, IF_DOCS, RETURN_DOCS};
use starpls_ide::markup::{render, Hover};
use starpls_ide::select::{pick_best_token, priority};
use starpls_ide::syntax::{Keyword, Node, NodeKind, SyntaxTree, TextRange, Token, TokenKind};
use starpls_ide::unindent::{is_indent_char, unindent_doc};

fn tok(kind: TokenKind, start: usize, text: &str, parent: usize) -> Token {
    Token {
        kind,
        range: TextRange { start, end: start + text.len() },
        text: text.to_string(),
        parent,
    }
}

fn node(kind: NodeKind, parent: Option<usize>) -> Node {
    Node { kind, parent }
}

fn resolved(display: &str, callable: bool, doc: Option<&str>) -> Resolved {
    Resolved { display: display.to_string(), callable, doc: doc.map(|d| d.to_string()) }
}

fn member(name: &str, info: Resolved) -> Member {
    Member { name: Some(name.to_string()), info }
}

fn text_of(h: Option<Hover>) -> String {
    let h = h.expect("a hover");
    assert!(h.range.is_none());
    h.contents.value
}

fn done_text(step: Step) -> Option<String> {
    match step {
        Step::Done(h) => h.map(|h| h.contents.value),
        Step::Ask(c) => panic!("unexpected query {:?}", c),
    }
}

fn ask(step: Step) -> Classification {
    match step {
        Step::Ask(c) => c,
        Step::Done(_) => panic!("expected a query"),
    }
}

/// `base.x`
fn dot_tree() -> SyntaxTree {
    SyntaxTree {
        tokens: vec![
            tok(TokenKind::Ident, 0, "base", 1),
            tok(TokenKind::Other, 4, ".", 0),
            tok(TokenKind::Ident, 5, "x", 2),
        ],
        nodes: vec![
            node(NodeKind::DotExpr { base: Some(1) }, None),
            node(NodeKind::NameRef { ident: Some(0) }, Some(0)),
            node(NodeKind::Name { ident: Some(2) }, Some(0)),
        ],
    }
}

/// `f(keyword_arg=1)`
fn call_tree() -> SyntaxTree {
    SyntaxTree {
        tokens: vec![
            tok(TokenKind::Ident, 0, "f", 1),
            tok(TokenKind::LParen, 1, "(", 2),
            tok(TokenKind::Ident, 2, "keyword_arg", 4),
            tok(TokenKind::Other, 13, "=", 3),
            tok(TokenKind::Other, 14, "1", 5),
            tok(TokenKind::RParen, 15, ")", 2),
        ],
        nodes: vec![
            node(NodeKind::CallExpr, None),
            node(NodeKind::NameRef { ident: Some(0) }, Some(0)),
            node(NodeKind::Arguments, Some(0)),
            node(NodeKind::Argument, Some(2)),
            node(NodeKind::Name { ident: Some(2) }, Some(3)),
            node(NodeKind::Other, Some(3)),
        ],
    }
}

/// `if x` followed by a token-less gap and `and`.
fn keyword_tree() -> SyntaxTree {
    SyntaxTree {
        tokens: vec![
            tok(TokenKind::Keyword(Keyword::If), 0, "if", 0),
            tok(TokenKind::Trivia, 2, " ", 0),
            tok(TokenKind::Ident, 3, "x", 1),
            tok(TokenKind::Keyword(Keyword::And), 10, "and", 0),
        ],
        nodes: vec![node(NodeKind::Other, None), node(NodeKind::NameRef { ident: Some(2) }, Some(0))],
    }
}

#[test]
fn priorities_rank_identifiers_first() {
    assert_eq!(priority(TokenKind::Ident), 2);
    assert_eq!(priority(TokenKind::Keyword(Keyword::For)), 1);
    assert_eq!(priority(TokenKind::Other), 1);
    assert_eq!(priority(TokenKind::LBrace), 0);
    assert_eq!(priority(TokenKind::Trivia), 0);
}

#[test]
fn identifier_inside_span_is_selected() {
    let t = call_tree();
    for off in 3..13 {
        assert_eq!(pick_best_token(&t, off), Some(2));
    }
}

#[test]
fn identifier_beats_bracket_at_boundary() {
    let t = call_tree();
    // `f` and `(` touch offset 1; `(` and `keyword_arg` touch offset 2.
    assert_eq!(pick_best_token(&t, 1), Some(0));
    assert_eq!(pick_best_token(&t, 2), Some(2));
}

#[test]
fn equal_priority_tie_prefers_left_token() {
    let t = call_tree();
    // `=` and `1` both have priority one and meet at offset 14.
    assert_eq!(pick_best_token(&t, 14), Some(3));
}

#[test]
fn nothing_touches_past_end_or_in_gap() {
    let t = keyword_tree();
    assert_eq!(pick_best_token(&t, 7), None);
    assert_eq!(pick_best_token(&t, 14), None);
    assert_eq!(done_text(hover_start(&t, 7)), None);
    assert_eq!(done_text(hover_start(&t, 100)), None);
}

#[test]
fn keyword_hover_gives_fixed_text() {
    let t = keyword_tree();
    assert_eq!(done_text(hover_start(&t, 0)), Some(IF_DOCS.to_string()));
    assert_eq!(done_text(hover_start(&t, 1)), Some(IF_DOCS.to_string()));
    assert!(IF_DOCS.contains("`if`"));
}

#[test]
fn keyword_without_text_gives_nothing() {
    let t = keyword_tree();
    assert_eq!(done_text(hover_start(&t, 11)), None);
}

#[test]
fn other_keywords_have_their_own_text() {
    let t = SyntaxTree {
        tokens: vec![
            tok(TokenKind::Keyword(Keyword::Break), 0, "break", 0),
            tok(TokenKind::Trivia, 5, "\n", 0),
            tok(TokenKind::Keyword(Keyword::Return), 6, "return", 0),
        ],
        nodes: vec![node(NodeKind::Other, None)],
    };
    assert_eq!(done_text(hover_start(&t, 2)), Some(BREAK_DOCS.to_string()));
    assert_eq!(done_text(hover_start(&t, 8)), Some(RETURN_DOCS.to_string()));
}

#[test]
fn name_reference_variable() {
    let t = keyword_tree();
    let c = ask(hover_start(&t, 3));
    assert!(matches!(&c, Classification::NameReference { expr: 1, name } if name == "x"));
    let text = text_of(finish(&c, &Answer::Symbol(Some(resolved("int", false, Some("A number."))))));
    assert_eq!(text, "```python\n(variable) x: int\n```\nA number.\n");
}

#[test]
fn name_reference_function_omits_name() {
    let t = keyword_tree();
    let c = ask(hover_start(&t, 4));
    let text = text_of(finish(&c, &Answer::Symbol(Some(resolved("def x() -> None", true, None)))));
    assert_eq!(text, "```python\n(function) def x() -> None\n```\n");
}

#[test]
fn unresolvable_reference_gives_nothing() {
    let t = keyword_tree();
    let c = ask(hover_start(&t, 3));
    assert!(finish(&c, &Answer::Symbol(None)).is_none());
}

#[test]
fn field_access_hover() {
    let t = dot_tree();
    let c = ask(hover_start(&t, 5));
    assert!(matches!(&c, Classification::FieldAccess { base: 1, field } if field == "x"));
    let fields = vec![
        member("y", resolved("str", false, None)),
        member("x", resolved("T", false, Some("The x coordinate."))),
    ];
    let text = text_of(finish(&c, &Answer::Members(Some(fields))));
    assert!(text.contains("(field) x: T"));
    assert_eq!(text, "```python\n(field) x: T\n```\nThe x coordinate.\n");
}

#[test]
fn method_hover_has_no_name_prefix() {
    let t = dot_tree();
    let c = ask(hover_start(&t, 6));
    let fields = vec![member("x", resolved("def x(self) -> int", true, Some("")))];
    let text = text_of(finish(&c, &Answer::Members(Some(fields))));
    assert_eq!(text, "```python\n(method) def x(self) -> int\n```\n");
    assert!(!text.contains("x: "));
}

#[test]
fn missing_field_gives_nothing() {
    let t = dot_tree();
    let c = ask(hover_start(&t, 5));
    let fields = vec![member("y", resolved("str", false, None))];
    assert!(finish(&c, &Answer::Members(Some(fields))).is_none());
    assert!(finish(&c, &Answer::Members(None)).is_none());
}

#[test]
fn base_of_dot_expression_is_a_name_reference() {
    let t = dot_tree();
    let c = ask(hover_start(&t, 4));
    assert!(matches!(&c, Classification::NameReference { expr: 1, name } if name == "base"));
}

#[test]
fn call_argument_hover() {
    let t = call_tree();
    let c = ask(hover_start(&t, 5));
    assert!(matches!(&c, Classification::CallArgument { call: 0, name } if name == "keyword_arg"));
    let params = vec![
        Member { name: None, info: resolved("int", false, None) },
        member("keyword_arg", resolved("T", false, Some("desc"))),
    ];
    let text = text_of(finish(&c, &Answer::Members(Some(params))));
    assert_eq!(text, "```python\n(parameter) keyword_arg: T\n```\ndesc\n");
}

#[test]
fn argument_outside_a_call_gives_nothing() {
    let mut t = call_tree();
    t.nodes[0] = node(NodeKind::Other, None);
    assert_eq!(done_text(hover_start(&t, 5)), None);
    assert!(classify(&t, 2).is_none());
}

#[test]
fn dangling_parent_gives_nothing() {
    let t = SyntaxTree { tokens: vec![tok(TokenKind::Ident, 0, "x", 7)], nodes: vec![] };
    assert_eq!(done_text(hover_start(&t, 0)), None);
}

/// `def f(p: Foo)`
fn def_tree() -> SyntaxTree {
    SyntaxTree {
        tokens: vec![
            tok(TokenKind::Keyword(Keyword::Def), 0, "def", 0),
            tok(TokenKind::Trivia, 3, " ", 0),
            tok(TokenKind::Ident, 4, "f", 1),
            tok(TokenKind::LParen, 5, "(", 0),
            tok(TokenKind::Ident, 6, "p", 3),
            tok(TokenKind::Other, 7, ":", 2),
            tok(TokenKind::Trivia, 8, " ", 2),
            tok(TokenKind::Ident, 9, "Foo", 4),
            tok(TokenKind::RParen, 12, ")", 0),
        ],
        nodes: vec![
            node(NodeKind::DefStmt, None),
            node(NodeKind::Name { ident: Some(2) }, Some(0)),
            node(NodeKind::Parameter, Some(0)),
            node(NodeKind::Name { ident: Some(4) }, Some(2)),
            node(NodeKind::NamedType, Some(2)),
        ],
    }
}

#[test]
fn definition_hover() {
    let t = def_tree();
    let c = ask(hover_start(&t, 4));
    assert!(matches!(c, Classification::Definition { def: 0 }));
    let doc = "Does f.\n\n    Details.\n      More.";
    let text = text_of(finish(&c, &Answer::Symbol(Some(resolved("def f(p: Foo) -> None", true, Some(doc))))));
    assert_eq!(text, "```python\n(function) def f(p: Foo) -> None\n```\nDoes f.\n\nDetails.\n  More.\n");
}

#[test]
fn parameter_hover() {
    let t = def_tree();
    let c = ask(hover_start(&t, 6));
    assert!(matches!(&c, Classification::Parameter { param: 2, name } if name == "p"));
    let text = text_of(finish(&c, &Answer::Symbol(Some(resolved("Foo", false, Some("ignored"))))));
    assert_eq!(text, "```python\n(parameter) p: Foo\n```\n");
}

#[test]
fn type_reference_hover() {
    let t = def_tree();
    let c = ask(hover_start(&t, 10));
    assert!(matches!(c, Classification::TypeReference { ty: 4 }));
    let text = text_of(finish(&c, &Answer::Symbol(Some(resolved("Foo", false, Some("A foo."))))));
    assert_eq!(text, "```python\n(type) Foo\n```\nA foo.\n");
}

#[test]
fn def_keyword_hover() {
    let t = def_tree();
    assert!(done_text(hover_start(&t, 1)).unwrap().contains("`def`"));
}

#[test]
fn import_item_hover() {
    let t = SyntaxTree {
        tokens: vec![
            tok(TokenKind::Keyword(Keyword::Load), 0, "load", 0),
            tok(TokenKind::LParen, 4, "(", 0),
            tok(TokenKind::Other, 5, "\":a.bzl\"", 0),
            tok(TokenKind::Other, 13, ",", 0),
            tok(TokenKind::Other, 14, "\"sym\"", 1),
            tok(TokenKind::RParen, 19, ")", 0),
        ],
        nodes: vec![node(NodeKind::Other, None), node(NodeKind::LoadItem, Some(0))],
    };
    let c = ask(hover_start(&t, 16));
    assert!(matches!(c, Classification::ImportItem { item: 1 }));
    let item = member("sym", resolved("list[int]", false, None));
    let text = text_of(finish(&c, &Answer::Import(Some(item))));
    assert_eq!(text, "```python\n(variable) sym: list[int]\n```\n");
    assert!(finish(&c, &Answer::Import(None)).is_none());
    assert!(finish(&c, &Answer::Import(Some(Member { name: None, info: resolved("int", false, None) }))).is_none());
}

#[test]
fn answer_of_wrong_shape_gives_nothing() {
    let t = def_tree();
    let c = ask(hover_start(&t, 10));
    assert!(finish(&c, &Answer::Members(Some(vec![]))).is_none());
}

#[test]
fn render_skips_empty_documentation() {
    assert_eq!(render("field", Some("a"), "int", Some("")), "```python\n(field) a: int\n```\n");
    assert_eq!(render("type", None, "int", None), "```python\n(type) int\n```\n");
}

#[test]
fn hover_from_string() {
    let h = Hover::from("text".to_string());
    assert_eq!(h.contents.value, "text");
    assert!(h.range.is_none());
}

#[test]
fn unindent_strips_common_indentation() {
    assert_eq!(unindent_doc("First.\n    a\n      b\n    c"), "First.\na\n  b\nc");
    assert_eq!(unindent_doc("\n\tx\n\ty"), "\nx\ny");
}

#[test]
fn unindent_keeps_first_line_and_blank_lines() {
    assert_eq!(unindent_doc("  First.\n\n    a\n  \n    b\n"), "  First.\n\n  a\n\n  b\n");
    assert_eq!(unindent_doc("  only"), "  only");
    assert_eq!(unindent_doc(""), "");
}

#[test]
fn unindent_uniform_round_trip() {
    let doc = "Head\n   one\n   two\n   three";
    assert_eq!(unindent_doc(doc), "Head\none\ntwo\nthree");
}

#[test]
fn unindent_is_idempotent_on_examples() {
    for doc in ["a\n    b\n  c", "x\n      \n      y\n    z", "  p\n\tq", "a\n  \n  "] {
        let once = unindent_doc(doc);
        assert_eq!(unindent_doc(&once), once);
    }
}

#[test]
fn unindent_counts_indentation_only_lines() {
    assert_eq!(unindent_doc("a\n \n  b"), "a\n\n b");
    assert_eq!(unindent_doc("a\n "), "a\n");
    assert_eq!(unindent_doc("a\n   "), "a\n");
}

#[test]
fn unindent_ignores_extra_uniform_indentation() {
    let doc = "Head\n  one\n\n    two";
    let deeper = "Head\n     one\n\n       two";
    assert_eq!(unindent_doc(doc), "Head\none\n\n  two");
    assert_eq!(unindent_doc(deeper), unindent_doc(doc));
}

#[test]
fn documentation_with_indentation_only_line_in_markup() {
    let t = keyword_tree();
    let c = ask(hover_start(&t, 3));
    let text = text_of(finish(&c, &Answer::Symbol(Some(resolved("int", false, Some("a\n \n  b"))))));
    assert_eq!(text, "```python\n(variable) x: int\n```\na\n\n b\n");
}

#[test]
fn unindent_treats_carriage_return_as_indentation() {
    assert_eq!(unindent_doc("a\n\r\n  b"), "a\n\n b");
    assert_eq!(unindent_doc("Head\r\n    one\r\n    two"), "Head\r\none\r\ntwo");
}

#[test]
fn indentation_characters_are_whitespace_but_newline() {
    for c in [' ', '\t', '\r', '\u{0B}', '\u{0C}', '\u{85}', '\u{A0}', '\u{1680}', '\u{2000}', '\u{200A}', '\u{2028}', '\u{2029}', '\u{202F}', '\u{205F}', '\u{3000}'] {
        assert!(is_indent_char(c));
        assert!(c.is_whitespace());
    }
    for c in ['\n', 'a', '\u{200B}', '\u{1F}', '_'] {
        assert!(!is_indent_char(c));
    }
    for u in 0u32..0x3100 {
        if let Some(c) = char::from_u32(u) {
            assert_eq!(is_indent_char(c), c.is_whitespace() && c != '\n');
        }
    }
    assert_eq!(unindent_doc("a\n\u{3000}\u{3000}b\n\u{3000}c"), "a\n\u{3000}b\nc");
}

#[test]
fn query_for_each_classification() {
    let n = || "n".to_string();
    assert_eq!(query_for(&Classification::NameReference { expr: 1, name: n() }), Query::TypeOfExpr { expr: 1 });
    assert_eq!(query_for(&Classification::FieldAccess { base: 2, field: n() }), Query::FieldsOfExpr { expr: 2 });
    assert_eq!(query_for(&Classification::Definition { def: 3 }), Query::CallableForDef { def: 3 });
    assert_eq!(query_for(&Classification::Parameter { param: 4, name: n() }), Query::TypeOfParam { param: 4 });
    assert_eq!(query_for(&Classification::CallArgument { call: 5, name: n() }), Query::ParamsOfCall { call: 5 });
    assert_eq!(query_for(&Classification::TypeReference { ty: 6 }), Query::ResolveType { ty: 6 });
    assert_eq!(query_for(&Classification::ImportItem { item: 7 }), Query::LoadItemDef { item: 7 });
}

#[test]
fn keyword_hover_at_span_ends() {
    let t = keyword_tree();
    // `if` meets the trivia token at offset 2; the end of a keyword still shows it.
    assert_eq!(done_text(hover_start(&t, 2)), Some(IF_DOCS.to_string()));
    let u = SyntaxTree {
        tokens: vec![
            tok(TokenKind::LParen, 0, "(", 0),
            tok(TokenKind::Keyword(Keyword::Pass), 1, "pass", 0),
            tok(TokenKind::RParen, 5, ")", 0),
        ],
        nodes: vec![node(NodeKind::Other, None)],
    };
    let pass = done_text(hover_start(&u, 1)).unwrap();
    assert!(pass.contains("`pass`"));
    assert_eq!(done_text(hover_start(&u, 5)), Some(pass));
}
