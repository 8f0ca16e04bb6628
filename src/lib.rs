//! Hover resolution for a Starlark language server: pick the token under the
//! cursor, classify its syntactic role and render a markup explanation.
pub mod syntax;
pub mod select;
pub mod unindent;
pub mod unindent_laws;
pub mod markup;
pub mod keywords;
pub mod classify;
pub mod hover;
pub mod laws;
