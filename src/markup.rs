use vstd::prelude::*;
use vstd::string::*;
use crate::syntax::TextRange;
use crate::unindent::{unindent, unindent_doc};

verus! {

/// Markdown text shown in the editor.
#[derive(Debug)]
pub struct Markup {
    pub value: String,
}

/// What a hover query produces: the markup, and the span it applies to
/// (`None`: the queried position in general).
#[derive(Debug)]
pub struct Hover {
    pub contents: Markup,
    pub range: Option<TextRange>,
}

impl From<String> for Hover {
    fn from(value: String) -> (r: Self) {
        Hover { contents: Markup { value }, range: None }
    }
}

impl vstd::std_specs::convert::FromSpecImpl<String> for Hover {
    open spec fn obeys_from_spec() -> bool {
        true
    }

    open spec fn from_spec(v: String) -> Self {
        Hover { contents: Markup { value: v }, range: None }
    }
}

/// `h` is the hover whose markup is `text`, applying to no particular span;
/// `None` on both sides when there is nothing to show.
pub open spec fn shows(h: Option<Hover>, text: Option<Seq<char>>) -> bool {
    match (h, text) {
        (None, None) => true,
        (Some(h), Some(t)) => h.contents.value@ == t && h.range is None,
        _ => false,
    }
}

/// The text of an optional string.
pub open spec fn view_opt(s: Option<String>) -> Option<Seq<char>> {
    match s {
        Some(s) => Some(s@),
        None => None,
    }
}

/// The fenced signature block: `(<label>) [<name>: ]<signature>`.
pub open spec fn code_block(label: Seq<char>, name: Option<Seq<char>>, sig: Seq<char>) -> Seq<
    char,
> {
    let named = match name {
        Some(n) => n + ": "@,
        None => Seq::empty(),
    };
    "```python\n("@ + label + ") "@ + named + sig + "\n```\n"@
}

/// The documentation paragraph: the normalized text and a line break, or
/// nothing when the documentation is absent or empty.
pub open spec fn doc_paragraph(doc: Option<Seq<char>>) -> Seq<char> {
    match doc {
        Some(d) => if d.len() > 0 {
            unindent(d) + "\n"@
        } else {
            Seq::empty()
        },
        None => Seq::empty(),
    }
}

/// The whole markup of a resolved symbol.
pub open spec fn markup(label: Seq<char>, name: Option<Seq<char>>, sig: Seq<char>, doc: Option<Seq<char>>) -> Seq<char> {
    code_block(label, name, sig) + doc_paragraph(doc)
}

/// Renders the signature block for `label`, `name` and `sig`, followed by
/// the normalized documentation when there is some.
pub fn render(label: &str, name: Option<&str>, sig: &str, doc: Option<&str>) -> (r: String)
    ensures
        r@ == markup(
            label@,
            match name {
                Some(n) => Some(n@),
                None => None,
            },
            sig@,
            match doc {
                Some(d) => Some(d@),
                None => None,
            },
        ),
{
    let mut text = String::from_str("```python\n(");
    text.append(label);
    text.append(") ");
    match name {
        Some(n) => {
            text.append(n);
            text.append(": ");
        },
        None => {},
    }
    text.append(sig);
    text.append("\n```\n");
    match doc {
        Some(d) => {
            if d.unicode_len() > 0 {
                let body = unindent_doc(d);
                text.append(body.as_str());
                text.append("\n");
            }
        },
        None => {},
    }
    proof {
        let named = match name {
            Some(n) => n@ + ": "@,
            None => Seq::<char>::empty(),
        };
        assert("```python\n("@ + label@ + ") "@ + named + sig@ + "\n```\n"@ =~= code_block(
            label@,
            match name {
                Some(n) => Some(n@),
                None => None,
            },
            sig@,
        ));
    }
    text
}

} // verus!
