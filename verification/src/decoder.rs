//! Decoding an annotation's argument syntax into a display string.
//!
//! The decoder is deliberately minimal and read-only:
//! - `Empty` arguments decode to the fixed `EMPTY` sentinel;
//! - the legacy `key = value` form is reported by a fixed sentinel and its
//!   right-hand literal is never decoded (a documented limitation);
//! - a delimited token list yields the quoted text of each immediate
//!   string-literal token, concatenated in token order with no separator;
//!   nested groups and non-string tokens are skipped, and if nothing was
//!   extracted the fixed `Unknown argument` sentinel comes back with
//!   `found == false`.

use vstd::prelude::*;
use crate::syntax::{ArgSyntax, LitKind, TokenKind, TokenTree};

verus! {

/// Whether a token tree is a single token holding a string literal.
pub open spec fn is_str_lit_tree(t: TokenTree) -> bool {
    t matches TokenTree::Token(TokenKind::Literal(lit)) && lit.kind is Str
}

/// Whether any immediate tree of a delimited group is a string literal.
pub open spec fn has_str_lit(trees: Seq<TokenTree>) -> bool {
    exists|j: int| 0 <= j < trees.len() && is_str_lit_tree(#[trigger] trees[j])
}

/// What one immediate token tree contributes to the decoded text: the
/// quoted symbol of a string literal, nothing for every other tree.
pub open spec fn piece(t: TokenTree) -> Seq<char> {
    match t {
        TokenTree::Token(TokenKind::Literal(lit)) => if lit.kind is Str {
            "\""@ + lit.symbol@ + "\""@
        } else {
            Seq::<char>::empty()
        },
        _ => Seq::<char>::empty(),
    }
}

/// The concatenated contributions of a delimited group's immediate trees,
/// in token order.
pub open spec fn pieces(trees: Seq<TokenTree>) -> Seq<char>
    decreases trees.len(),
{
    if trees.len() == 0 {
        Seq::<char>::empty()
    } else {
        pieces(trees.drop_last()) + piece(trees.last())
    }
}

/// The decoded display string and the found/not-found flag for each of the
/// three recognized argument shapes.
pub open spec fn spec_decode(args: ArgSyntax) -> (Seq<char>, bool) {
    match args {
        ArgSyntax::Empty => ("EMPTY"@, true),
        ArgSyntax::KeyEquals(_) => ("Found EQ attribute form"@, true),
        ArgSyntax::Delimited(trees) => if has_str_lit(trees@) {
            (pieces(trees@), true)
        } else {
            ("Unknown argument"@, false)
        },
    }
}

/// Decode argument syntax into a display string plus a flag saying whether
/// decodable content was recognized.  `Empty` arguments always decode to
/// the `EMPTY` sentinel with the flag set: the absence of arguments is
/// itself meaningful and distinguishable from a delimited list in which no
/// string literal was found.
pub fn decode_args(args: &ArgSyntax) -> (r: (String, bool))
    ensures
        r.0@ == spec_decode(*args).0,
        r.1 == spec_decode(*args).1,
{
    match args {
        ArgSyntax::Empty => ("EMPTY".to_owned(), true),
        ArgSyntax::KeyEquals(_) => ("Found EQ attribute form".to_owned(), true),
        ArgSyntax::Delimited(trees) => {
            let mut buffer = String::new();
            let mut found = false;
            let mut i: usize = 0;
            while i < trees.len()
                invariant
                    i <= trees@.len(),
                    buffer@ == pieces(trees@.take(i as int)),
                    found == has_str_lit(trees@.take(i as int)),
                decreases trees@.len() - i,
            {
                match &trees[i] {
                    TokenTree::Token(TokenKind::Literal(lit)) => {
                        match lit.kind {
                            LitKind::Str => {
                                buffer.append("\"");
                                buffer.append(lit.symbol.as_str());
                                buffer.append("\"");
                                found = true;
                            },
                            _ => {},
                        }
                    },
                    _ => {},
                }
                proof {
                    let taken = trees@.take(i as int + 1);
                    assert(taken.drop_last() =~= trees@.take(i as int));
                    assert(taken.last() == trees@[i as int]);
                    assert(buffer@ =~= pieces(taken));
                    if is_str_lit_tree(trees@[i as int]) {
                        assert(has_str_lit(taken));
                    } else {
                        assert(forall|j: int| 0 <= j < taken.len() && is_str_lit_tree(#[trigger] taken[j])
                            ==> 0 <= j < i && is_str_lit_tree(trees@.take(i as int)[j]));
                    }
                }
                i = i + 1;
            }
            proof {
                assert(trees@.take(trees@.len() as int) =~= trees@);
            }
            if found {
                (buffer, true)
            } else {
                ("Unknown argument".to_owned(), false)
            }
        },
    }
}

/// A delimited group whose immediate trees hold no
/// string literal — only identifiers, punctuation, non-string literals or
/// nested groups — always decodes to the `Unknown argument` sentinel with
/// `found == false`.
pub proof fn lemma_no_literal_decode(args: ArgSyntax)
    requires
        args matches ArgSyntax::Delimited(trees) && forall|j: int|
            0 <= j < trees@.len() ==> !is_str_lit_tree(#[trigger] trees@[j]),
    ensures
        spec_decode(args).0 == "Unknown argument"@,
        spec_decode(args).1 == false,
{
}

/// Empty argument syntax always decodes to the
/// fixed `EMPTY` sentinel with `found == true`, whatever annotation or
/// declaration it came from.
pub proof fn lemma_empty_decode(args: ArgSyntax)
    requires
        args is Empty,
    ensures
        spec_decode(args).0 == "EMPTY"@,
        spec_decode(args).1 == true,
{
}

} // verus!
