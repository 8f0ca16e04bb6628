use vstd::prelude::*;
use vstd::string::*;
use crate::markup::view_opt;
use crate::syntax::Keyword;

verus! {

pub const BREAK_DOCS: &'static str = "```python\nbreak\n```\n`break` ends the innermost enclosing `for` loop; the loop's remaining iterations are skipped.\n";

pub const CONTINUE_DOCS: &'static str = "```python\ncontinue\n```\n`continue` skips the rest of the current iteration of the innermost enclosing `for` loop and starts the next one.\n";

pub const DEF_DOCS: &'static str = "```python\ndef\n```\n`def` defines a named function with its parameters and a body of statements.\n";

pub const FOR_DOCS: &'static str = "```python\nfor\n```\n`for` runs its body once for each element of an iterable value, binding the element to the loop variables.\n";

pub const IF_DOCS: &'static str = "```python\nif\n```\n`if` runs its body when the condition is true; `elif` and `else` branches are tried in order otherwise.\n";

pub const LOAD_DOCS: &'static str = "```python\nload\n```\n`load` imports symbols from another module: the first argument names the module, the others the symbols, optionally under a local alias.\n";

pub const PASS_DOCS: &'static str = "```python\npass\n```\n`pass` does nothing; it stands where a statement is required.\n";

pub const RETURN_DOCS: &'static str = "```python\nreturn\n```\n`return` ends the enclosing function, handing back the value of its expression, or `None` when there is none.\n";

/// The fixed explanation shown for a keyword, for the keywords that have one.
pub open spec fn keyword_doc(k: Keyword) -> Option<Seq<char>> {
    match k {
        Keyword::Break => Some(BREAK_DOCS@),
        Keyword::Continue => Some(CONTINUE_DOCS@),
        Keyword::Def => Some(DEF_DOCS@),
        Keyword::For => Some(FOR_DOCS@),
        Keyword::If => Some(IF_DOCS@),
        Keyword::Load => Some(LOAD_DOCS@),
        Keyword::Pass => Some(PASS_DOCS@),
        Keyword::Return => Some(RETURN_DOCS@),
        _ => None,
    }
}

/// The explanation of a keyword as an owned string.
pub fn keyword_text(k: Keyword) -> (r: Option<String>)
    ensures
        view_opt(r) == keyword_doc(k),
{
    let s = match k {
        Keyword::Break => BREAK_DOCS,
        Keyword::Continue => CONTINUE_DOCS,
        Keyword::Def => DEF_DOCS,
        Keyword::For => FOR_DOCS,
        Keyword::If => IF_DOCS,
        Keyword::Load => LOAD_DOCS,
        Keyword::Pass => PASS_DOCS,
        Keyword::Return => RETURN_DOCS,
        _ => {
            return None;
        },
    };
    Some(String::from_str(s))
}

} // verus!
