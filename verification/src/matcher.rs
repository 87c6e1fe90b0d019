//! Matching an annotation's path against the registered tool namespace,
//! and rendering a path for a report row.

use vstd::prelude::*;

verus! {

/// An annotation path belongs to the namespace exactly when its first
/// segment string-equals the namespace identifier.  An empty path matches
/// nothing (the matcher fails closed on malformed attributes).
pub open spec fn spec_path_matches(path: Seq<String>, namespace: Seq<char>) -> bool {
    path.len() > 0 && path[0]@ == namespace
}

/// Decide whether `path` belongs to `namespace`: true exactly when the
/// first segment equals the namespace identifier, case-sensitively and in
/// full (a path starting with `smplx` does not match namespace `smpl`).
/// Never panics; an empty path simply does not match.
pub fn path_matches(path: &Vec<String>, namespace: &String) -> (r: bool)
    ensures
        r == spec_path_matches(path@, namespace@),
{
    if path.len() == 0 {
        false
    } else {
        path[0].eq(namespace)
    }
}

/// The display form of a path: its segments joined by `::`.
pub open spec fn spec_pretty_path(segments: Seq<String>) -> Seq<char>
    decreases segments.len(),
{
    if segments.len() == 0 {
        Seq::<char>::empty()
    } else if segments.len() == 1 {
        segments[0]@
    } else {
        spec_pretty_path(segments.drop_last()) + "::"@ + segments.last()@
    }
}

/// Join the segments of a non-empty path with `::` separators.
pub fn pretty_path(segments: &Vec<String>) -> (r: String)
    requires
        segments@.len() > 0,
    ensures
        r@ == spec_pretty_path(segments@),
{
    let mut buffer: String = segments[0].clone();
    let mut i: usize = 1;
    while i < segments.len()
        invariant
            1 <= i <= segments@.len(),
            buffer@ == spec_pretty_path(segments@.take(i as int)),
        decreases segments@.len() - i,
    {
        buffer.append("::");
        buffer.append(segments[i].as_str());
        proof {
            let taken = segments@.take(i as int + 1);
            assert(taken.drop_last() =~= segments@.take(i as int));
            assert(taken.last() == segments@[i as int]);
            assert(buffer@ =~= spec_pretty_path(taken));
        }
        i = i + 1;
    }
    proof {
        assert(segments@.take(segments@.len() as int) =~= segments@);
    }
    buffer
}

} // verus!
