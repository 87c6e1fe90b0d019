//! The declaration set that a front end hands to the scanner.
//!
//! Everything here is plain immutable data: the front end produces it once
//! per compilation session, and the scanner only reads it.

use vstd::prelude::*;

verus! {

/// The sub-kind of a literal token.  The decoder only ever extracts string
/// literals; every other sub-kind is listed so that a front end can report
/// it faithfully, and is skipped during decoding.
pub enum LitKind {
    /// A string literal, e.g. `"hello"`.  Its text is the literal's symbol.
    Str,
    /// An integer literal, e.g. `42`.
    Int,
    /// A boolean literal.
    Bool,
    /// Any other literal sub-kind (chars, byte strings, ...).
    OtherLit,
}

/// A literal token: a sub-kind plus the literal's text, without quotes.
pub struct Lit {
    /// Which sort of literal this is.
    pub kind: LitKind,
    /// The literal's textual content, e.g. `hello` for `"hello"`.
    pub symbol: String,
}

/// The kind of a single (non-group) token inside annotation arguments.
pub enum TokenKind {
    /// An identifier, carrying its name.
    Ident(String),
    /// A single punctuation character.
    Punct(char),
    /// A literal of some sub-kind.
    Literal(Lit),
    /// Any other token kind; never decoded.
    OtherToken,
}

/// A token tree: either a single token or a nested bracket-delimited group.
pub enum TokenTree {
    /// One token.
    Token(TokenKind),
    /// A nested delimited group.  The decoder does not descend into these.
    Delimited(Vec<TokenTree>),
}

/// The raw argument syntax attached to an annotation.
pub enum ArgSyntax {
    /// No arguments at all: `#[ns::marker]`.
    Empty,
    /// A bracket-delimited token list: `#[ns::marker("a", 42)]`.
    Delimited(Vec<TokenTree>),
    /// The legacy `key = value` form: `#[ns::marker = "v"]`.  The decoder
    /// reports the form itself and never decodes the right-hand literal.
    KeyEquals(Lit),
}

/// One annotation on a declaration: a namespaced path (e.g.
/// `["smpl", "capture"]`) plus its raw argument syntax.  Front ends should
/// never produce an empty path; the matcher treats one as matching nothing.
pub struct Annotation {
    /// The path's segments, outermost first.
    pub path: Vec<String>,
    /// The raw argument syntax after the path.
    pub args: ArgSyntax,
}

/// The syntactic kind of a top-level declaration.
pub enum DeclKind {
    /// A function definition.
    Function,
    /// A static / global variable definition.
    Static,
    /// A structured-type definition.
    StructDef,
    /// A trait / interface definition.  Outside the scanner's allowlist.
    Trait,
    /// A nested module.  Outside the scanner's allowlist.
    Module,
    /// Any other declaration kind.  Outside the scanner's allowlist.
    OtherDecl,
}

/// One top-level declaration of the compiled program.
pub struct Declaration {
    /// A stable identity, usable to request the declaration's resolved type
    /// from the front end that produced it.
    pub id: u64,
    /// The declaration's name.
    pub name: String,
    /// The declaration's syntactic kind.
    pub kind: DeclKind,
    /// The attached annotations, in attachment order.
    pub annotations: Vec<Annotation>,
}

} // verus!
