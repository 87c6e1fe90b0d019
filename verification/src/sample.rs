//! A worked example: a tiny annotated program and its front-end session.
//!
//! The items here play the part of an input program's declarations, so the
//! engine can be exercised without a real front end: `Foo` and `hello`
//! carry a `smpl::map` annotation, `bar` and `qux` carry none.  [`session`]
//! describes these declarations, with their resolved types, as the
//! completed session a front end would hand over.

use vstd::prelude::*;
use crate::scanner::{spec_has_type, FrontEnd};
use crate::syntax::{Annotation, ArgSyntax, DeclKind, Declaration, Lit, LitKind, TokenKind, TokenTree};

verus! {

/// The example's structured-type declaration.  In the session it carries
/// the annotation `smpl::map` with empty arguments.
pub struct Foo {}

/// An inert function of the example program; in the session it carries no
/// annotation, so the scan skips it.
pub fn bar() {
}

/// An inert function of the example program; in the session it carries no
/// annotation, so the scan skips it.
pub fn qux() {
}

/// The example's annotated function.  In the session it carries
/// `smpl::map("hello maps")`: a delimited token list holding one string
/// literal.
pub fn hello() {
}

/// The example program as a completed front-end session: four top-level
/// declarations in source order — the annotated struct `Foo`, the
/// unannotated functions `bar` and `qux`, and the annotated function
/// `hello` — with a resolved type recorded for each.
pub fn session() -> (r: FrontEnd)
    ensures
        r.wf(),
        r.decls@.len() == 4,
        ({
            &&& r.decls@[0].name@ == "Foo"@
            &&& r.decls@[0].kind is StructDef
            &&& r.decls@[0].annotations@.len() == 1
            &&& r.decls@[0].annotations@[0].path@.len() == 2
            &&& r.decls@[0].annotations@[0].path@[0]@ == "smpl"@
            &&& r.decls@[0].annotations@[0].path@[1]@ == "map"@
            &&& r.decls@[0].annotations@[0].args is Empty
        }),
        ({
            &&& r.decls@[1].name@ == "bar"@
            &&& r.decls@[1].kind is Function
            &&& r.decls@[1].annotations@.len() == 0
        }),
        ({
            &&& r.decls@[2].name@ == "qux"@
            &&& r.decls@[2].kind is Function
            &&& r.decls@[2].annotations@.len() == 0
        }),
        ({
            &&& r.decls@[3].name@ == "hello"@
            &&& r.decls@[3].kind is Function
            &&& r.decls@[3].annotations@.len() == 1
            &&& r.decls@[3].annotations@[0].path@.len() == 2
            &&& r.decls@[3].annotations@[0].path@[0]@ == "smpl"@
            &&& r.decls@[3].annotations@[0].path@[1]@ == "map"@
            &&& r.decls@[3].annotations@[0].args matches ArgSyntax::Delimited(trees)
            &&& trees@.len() == 1
            &&& trees@[0] matches TokenTree::Token(TokenKind::Literal(lit))
            &&& lit.kind is Str
            &&& lit.symbol@ == "hello maps"@
        }),
        ({
            &&& r.types@.len() == 4
            &&& r.types@[0].0 == 1 && r.types@[0].1@ == "Foo"@
            &&& r.types@[1].0 == 2 && r.types@[1].1@ == "fn() {bar}"@
            &&& r.types@[2].0 == 3 && r.types@[2].1@ == "fn() {qux}"@
            &&& r.types@[3].0 == 4 && r.types@[3].1@ == "fn() {hello}"@
        }),
        r.decls@[0].id == 1 && r.decls@[1].id == 2 && r.decls@[2].id == 3 && r.decls@[3].id == 4,
{
    let mut path0: Vec<String> = Vec::new();
    path0.push("smpl".to_owned());
    path0.push("map".to_owned());
    let mut anns0: Vec<Annotation> = Vec::new();
    anns0.push(Annotation { path: path0, args: ArgSyntax::Empty });
    let foo_decl = Declaration {
        id: 1,
        name: "Foo".to_owned(),
        kind: DeclKind::StructDef,
        annotations: anns0,
    };

    let bar_decl = Declaration {
        id: 2,
        name: "bar".to_owned(),
        kind: DeclKind::Function,
        annotations: Vec::new(),
    };
    let qux_decl = Declaration {
        id: 3,
        name: "qux".to_owned(),
        kind: DeclKind::Function,
        annotations: Vec::new(),
    };

    let mut path1: Vec<String> = Vec::new();
    path1.push("smpl".to_owned());
    path1.push("map".to_owned());
    let mut trees: Vec<TokenTree> = Vec::new();
    trees.push(
        TokenTree::Token(
            TokenKind::Literal(Lit { kind: LitKind::Str, symbol: "hello maps".to_owned() }),
        ),
    );
    let mut anns1: Vec<Annotation> = Vec::new();
    anns1.push(Annotation { path: path1, args: ArgSyntax::Delimited(trees) });
    let hello_decl = Declaration {
        id: 4,
        name: "hello".to_owned(),
        kind: DeclKind::Function,
        annotations: anns1,
    };

    let mut decls: Vec<Declaration> = Vec::new();
    decls.push(foo_decl);
    decls.push(bar_decl);
    decls.push(qux_decl);
    decls.push(hello_decl);

    let mut types: Vec<(u64, String)> = Vec::new();
    types.push((1, "Foo".to_owned()));
    types.push((2, "fn() {bar}".to_owned()));
    types.push((3, "fn() {qux}".to_owned()));
    types.push((4, "fn() {hello}".to_owned()));

    let fe = FrontEnd { decls, types };
    proof {
        assert forall|i: int| 0 <= i < fe.decls@.len() implies spec_has_type(
            fe.types@,
            (#[trigger] fe.decls@[i]).id,
        ) by {
            if i == 0 {
                assert(fe.types@[0].0 == 1);
            } else if i == 1 {
                assert(fe.types@[1].0 == 2);
            } else if i == 2 {
                assert(fe.types@[2].0 == 3);
            } else {
                assert(fe.types@[3].0 == 4);
            }
        }
    }
    fe
}

} // verus!
