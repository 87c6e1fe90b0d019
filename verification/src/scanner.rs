//! The declaration scanner and the front-end session it consumes.
//!
//! A [`FrontEnd`] value is the completed outcome of one compilation
//! session: the program's top-level declarations in source order, plus a
//! lookup from a declaration's identity to the display form of its
//! resolved type.  [`scan`] makes one linear pass over the declarations:
//! for each declaration of a recognized kind it selects the first
//! annotation whose path matches the registered namespace, decodes that
//! annotation's arguments, asks for the declaration's resolved type, and
//! appends one report row.  Rows are produced in declaration order and
//! never reordered.

use vstd::prelude::*;
use crate::decoder::{decode_args, spec_decode};
use crate::matcher::{path_matches, pretty_path, spec_path_matches, spec_pretty_path};
use crate::syntax::{Annotation, DeclKind, Declaration};

verus! {

/// The input program did not parse or type-check.  Fatal: the scanner is
/// never run on such a session.
#[derive(Debug)]
pub struct CompilationError {
    /// The front end's diagnostics, one message per line.
    pub diagnostics: Vec<String>,
}

/// The two fatal failures of a run.
#[derive(Debug)]
pub enum EngineError {
    /// Compilation failed; carries the front end's diagnostics.
    Compilation {
        /// The front end's diagnostics, one message per line.
        diagnostics: Vec<String>,
    },
    /// A resolved type was requested for an identity outside the current
    /// session.  The scanner only queries identities it just obtained from
    /// the session, so on a well-formed session this never happens.
    UnknownDeclaration {
        /// The identity that the session could not resolve.
        id: u64,
    },
}

/// One line of the report: a declaration matched the namespace.
pub struct ReportRow {
    /// The matching annotation's full path, segments joined by `::`.
    pub annotation_path: String,
    /// The declaration's name.
    pub decl_name: String,
    /// The display form of the declaration's resolved type.
    pub resolved_type: String,
    /// The decoded argument string of the matching annotation.
    pub decoded_args: String,
}

/// The mathematical shadow of a [`ReportRow`]: the same four fields as
/// character sequences.
#[verifier::ext_equal]
pub struct RowView {
    /// View of [`ReportRow::annotation_path`].
    pub annotation_path: Seq<char>,
    /// View of [`ReportRow::decl_name`].
    pub decl_name: Seq<char>,
    /// View of [`ReportRow::resolved_type`].
    pub resolved_type: Seq<char>,
    /// View of [`ReportRow::decoded_args`].
    pub decoded_args: Seq<char>,
}

impl View for ReportRow {
    type V = RowView;

    open spec fn view(&self) -> RowView {
        RowView {
            annotation_path: self.annotation_path@,
            decl_name: self.decl_name@,
            resolved_type: self.resolved_type@,
            decoded_args: self.decoded_args@,
        }
    }
}

impl DeepView for ReportRow {
    type V = RowView;

    open spec fn deep_view(&self) -> RowView {
        self.view()
    }
}

/// The scanner's allowlist: only functions, statics and structured-type
/// definitions are examined.  Every other declaration kind is silently
/// skipped — a scope limitation of the scanner, not an error.
pub open spec fn kind_eligible(k: DeclKind) -> bool {
    k is Function || k is Static || k is StructDef
}

/// Decide whether a declaration kind is on the scanner's allowlist.
pub fn is_recognized_kind(k: &DeclKind) -> (r: bool)
    ensures
        r == kind_eligible(*k),
{
    match k {
        DeclKind::Function => true,
        DeclKind::Static => true,
        DeclKind::StructDef => true,
        _ => false,
    }
}

/// The first annotation, in attachment order, whose path matches the
/// namespace; `None` if no annotation matches.
pub open spec fn first_match(anns: Seq<Annotation>, namespace: Seq<char>) -> Option<Annotation>
    decreases anns.len(),
{
    if anns.len() == 0 {
        None
    } else if spec_path_matches(anns[0].path@, namespace) {
        Some(anns[0])
    } else {
        first_match(anns.drop_first(), namespace)
    }
}

/// The resolved type recorded for `id`: the first entry with that
/// identity, `None` if the session has no entry for it.
pub open spec fn type_entry(types: Seq<(u64, String)>, id: u64) -> Option<String>
    decreases types.len(),
{
    if types.len() == 0 {
        None
    } else if types[0].0 == id {
        Some(types[0].1)
    } else {
        type_entry(types.drop_first(), id)
    }
}

/// Whether the session records a resolved type for `id`.
pub open spec fn spec_has_type(types: Seq<(u64, String)>, id: u64) -> bool {
    exists|j: int| 0 <= j < types.len() && (#[trigger] types[j]).0 == id
}

/// Whether a declaration produces a report row: its kind is on the
/// allowlist and at least one of its annotations matches the namespace.
pub open spec fn spec_matches(d: Declaration, namespace: Seq<char>) -> bool {
    kind_eligible(d.kind) && first_match(d.annotations@, namespace) is Some
}

/// The row a declaration produces, built from its first matching
/// annotation; `None` for skipped kinds and unannotated declarations.
pub open spec fn spec_row_of(d: Declaration, types: Seq<(u64, String)>, namespace: Seq<char>) -> Option<
    RowView,
> {
    if kind_eligible(d.kind) {
        match first_match(d.annotations@, namespace) {
            Some(ann) => Some(
                RowView {
                    annotation_path: spec_pretty_path(ann.path@),
                    decl_name: d.name@,
                    resolved_type: (type_entry(types, d.id)->0)@,
                    decoded_args: spec_decode(ann.args).0,
                },
            ),
            None => None,
        }
    } else {
        None
    }
}

/// The full report: each declaration's row, in declaration order.
pub open spec fn spec_rows(
    decls: Seq<Declaration>,
    types: Seq<(u64, String)>,
    namespace: Seq<char>,
) -> Seq<RowView>
    decreases decls.len(),
{
    if decls.len() == 0 {
        Seq::<RowView>::empty()
    } else {
        spec_rows(decls.drop_last(), types, namespace) + match spec_row_of(
            decls.last(),
            types,
            namespace,
        ) {
            Some(rv) => seq![rv],
            None => Seq::<RowView>::empty(),
        }
    }
}

/// Whether the scan completes: every declaration that produces a row has a
/// resolved type recorded in the session.
pub open spec fn spec_scan_ok(
    decls: Seq<Declaration>,
    types: Seq<(u64, String)>,
    namespace: Seq<char>,
) -> bool {
    forall|i: int|
        0 <= i < decls.len() && spec_matches(#[trigger] decls[i], namespace) ==> spec_has_type(
            types,
            decls[i].id,
        )
}

/// A completed, type-checked compilation session, as the front end hands
/// it over: immutable for the scanner's whole lifetime.
pub struct FrontEnd {
    /// The program's top-level declarations, in source order.
    pub decls: Vec<Declaration>,
    /// The resolved type recorded for each declaration identity, as a
    /// display string.
    pub types: Vec<(u64, String)>,
}

impl FrontEnd {
    /// A consistent session: every declaration's identity has a resolved
    /// type recorded.
    pub open spec fn wf(&self) -> bool {
        forall|i: int|
            0 <= i < self.decls@.len() ==> spec_has_type(
                self.types@,
                (#[trigger] self.decls@[i]).id,
            )
    }

    /// The session's declarations, stable across repeated calls.
    pub fn declarations(&self) -> (r: &Vec<Declaration>)
        ensures
            r@ == self.decls@,
    {
        &self.decls
    }

    /// The display form of the resolved type of the declaration with
    /// identity `id`; fails exactly when the identity is outside this
    /// session's declaration set.
    pub fn resolved_type_of(&self, id: u64) -> (r: Result<String, EngineError>)
        ensures
            r matches Ok(t) ==> spec_has_type(self.types@, id) && type_entry(self.types@, id)
                == Some(t),
            r matches Err(e) ==> ({
                &&& e matches EngineError::UnknownDeclaration { id: missing }
                &&& missing == id
                &&& !spec_has_type(self.types@, id)
            }),
    {
        let mut k: usize = 0;
        proof {
            assert(self.types@.skip(0) =~= self.types@);
        }
        while k < self.types.len()
            invariant
                k <= self.types@.len(),
                type_entry(self.types@, id) == type_entry(self.types@.skip(k as int), id),
                forall|j: int| 0 <= j < k ==> (#[trigger] self.types@[j]).0 != id,
            decreases self.types@.len() - k,
        {
            if self.types[k].0 == id {
                proof {
                    assert(self.types@.skip(k as int)[0] == self.types@[k as int]);
                }
                return Ok(self.types[k].1.clone());
            }
            proof {
                assert(self.types@.skip(k as int).drop_first() =~= self.types@.skip(k as int + 1));
            }
            k = k + 1;
        }
        proof {
            assert(self.types@.skip(self.types@.len() as int) =~= Seq::<(u64, String)>::empty());
        }
        Err(EngineError::UnknownDeclaration { id })
    }
}

/// The index of the first annotation whose path matches the namespace.
fn first_match_index(anns: &Vec<Annotation>, namespace: &String) -> (r: Option<usize>)
    ensures
        r matches Some(j) ==> j < anns@.len() && spec_path_matches(
            anns@[j as int].path@,
            namespace@,
        ) && first_match(anns@, namespace@) == Some(anns@[j as int]),
        r is None ==> first_match(anns@, namespace@) is None,
{
    let mut j: usize = 0;
    proof {
        assert(anns@.skip(0) =~= anns@);
    }
    while j < anns.len()
        invariant
            j <= anns@.len(),
            first_match(anns@, namespace@) == first_match(anns@.skip(j as int), namespace@),
        decreases anns@.len() - j,
    {
        if path_matches(&anns[j].path, namespace) {
            proof {
                assert(anns@.skip(j as int)[0] == anns@[j as int]);
            }
            return Some(j);
        }
        proof {
            assert(anns@.skip(j as int).drop_first() =~= anns@.skip(j as int + 1));
        }
        j = j + 1;
    }
    proof {
        assert(anns@.skip(anns@.len() as int) =~= Seq::<Annotation>::empty());
    }
    None
}

/// Scan the session's declarations for the registered namespace and
/// assemble the report: succeeds, with the rows in declaration order,
/// exactly when every matched declaration's identity resolves; otherwise
/// reports the first identity that does not.
pub fn scan(fe: &FrontEnd, namespace: &String) -> (r: Result<Vec<ReportRow>, EngineError>)
    ensures
        r is Ok <==> spec_scan_ok(fe.decls@, fe.types@, namespace@),
        r matches Ok(rows) ==> rows.deep_view() == spec_rows(fe.decls@, fe.types@, namespace@),
        r matches Err(e) ==> ({
            &&& e matches EngineError::UnknownDeclaration { id }
            &&& exists|i: int|
                0 <= i < fe.decls@.len() && spec_matches(#[trigger] fe.decls@[i], namespace@)
                    && !spec_has_type(fe.types@, fe.decls@[i].id) && id == fe.decls@[i].id
                    && spec_scan_ok(fe.decls@.take(i), fe.types@, namespace@)
        }),
{
    let mut rows: Vec<ReportRow> = Vec::new();
    let mut i: usize = 0;
    while i < fe.decls.len()
        invariant
            i <= fe.decls@.len(),
            spec_scan_ok(fe.decls@.take(i as int), fe.types@, namespace@),
            rows.deep_view() == spec_rows(fe.decls@.take(i as int), fe.types@, namespace@),
        decreases fe.decls@.len() - i,
    {
        let d = &fe.decls[i];
        let ghost dspec = fe.decls@[i as int];
        let ghost prev_rows = rows.deep_view();
        if is_recognized_kind(&d.kind) {
            match first_match_index(&d.annotations, namespace) {
                Some(j) => {
                    let ann = &d.annotations[j];
                    match fe.resolved_type_of(d.id) {
                        Ok(t) => {
                            let decoded = decode_args(&ann.args);
                            let row = ReportRow {
                                annotation_path: pretty_path(&ann.path),
                                decl_name: d.name.clone(),
                                resolved_type: t,
                                decoded_args: decoded.0,
                            };
                            let ghost rowv = row@;
                            proof {
                                assert(spec_row_of(dspec, fe.types@, namespace@) matches Some(rv)
                                    && rv =~= rowv);
                            }
                            rows.push(row);
                            proof {
                                assert(rows.deep_view() =~= prev_rows.push(rowv));
                            }
                        },
                        Err(e) => {
                            proof {
                                assert(spec_matches(dspec, namespace@));
                                assert(!spec_scan_ok(fe.decls@, fe.types@, namespace@));
                            }
                            return Err(e);
                        },
                    }
                },
                None => {
                    proof {
                        assert(spec_row_of(dspec, fe.types@, namespace@) is None);
                    }
                },
            }
        } else {
            proof {
                assert(spec_row_of(dspec, fe.types@, namespace@) is None);
            }
        }
        proof {
            let taken = fe.decls@.take(i as int + 1);
            assert(taken.drop_last() =~= fe.decls@.take(i as int));
            assert(taken.last() == dspec);
            assert(rows.deep_view() =~= spec_rows(taken, fe.types@, namespace@));
            assert(spec_scan_ok(taken, fe.types@, namespace@));
        }
        i = i + 1;
    }
    proof {
        assert(fe.decls@.take(fe.decls@.len() as int) =~= fe.decls@);
    }
    Ok(rows)
}

/// Run the engine on the outcome of a compilation: a failed compilation is
/// fatal and produces zero report rows — the scanner is not invoked and
/// the front end's diagnostics are handed back unchanged.  On a completed
/// session, scan as [`scan`] does.
pub fn scan_compilation(compiled: Result<FrontEnd, CompilationError>, namespace: &String) -> (r:
    Result<Vec<ReportRow>, EngineError>)
    ensures
        compiled matches Err(c) ==> ({
            &&& r matches Err(e)
            &&& e matches EngineError::Compilation { diagnostics }
            &&& diagnostics == c.diagnostics
        }),
        compiled matches Ok(fe) ==> {
            &&& r is Ok <==> spec_scan_ok(fe.decls@, fe.types@, namespace@)
            &&& (r matches Ok(rows) ==> rows.deep_view() == spec_rows(
                fe.decls@,
                fe.types@,
                namespace@,
            ))
            &&& (r matches Err(e) ==> e is UnknownDeclaration)
        },
{
    match compiled {
        Ok(fe) => scan(&fe, namespace),
        Err(c) => Err(EngineError::Compilation { diagnostics: c.diagnostics }),
    }
}

/// On a well-formed session the scan succeeds for every namespace: each
/// declaration that could produce a row has a resolved type recorded.
pub proof fn lemma_wf_scan_ok(fe: FrontEnd, namespace: Seq<char>)
    requires
        fe.wf(),
    ensures
        spec_scan_ok(fe.decls@, fe.types@, namespace),
{
}

/// A declaration whose kind is outside the allowlist —
/// a trait, a module, anything but a function, static or structured-type
/// definition — never produces a report row, however its annotations read.
pub proof fn lemma_kind_filter(d: Declaration, types: Seq<(u64, String)>, namespace: Seq<char>)
    requires
        !kind_eligible(d.kind),
    ensures
        spec_row_of(d, types, namespace) is None,
{
}

/// Whether `m` is the least index of an annotation matching the namespace.
pub open spec fn least_match_at(anns: Seq<Annotation>, namespace: Seq<char>, m: int) -> bool {
    &&& 0 <= m < anns.len()
    &&& spec_path_matches(anns[m].path@, namespace)
    &&& forall|k: int| 0 <= k < m ==> !spec_path_matches(#[trigger] anns[k].path@, namespace)
}

/// `first_match` selects the least matching index, whenever any index
/// at or below `i` matches.
proof fn lemma_first_match_least(anns: Seq<Annotation>, namespace: Seq<char>, i: int)
    requires
        0 <= i < anns.len(),
        spec_path_matches(anns[i].path@, namespace),
    ensures
        exists|m: int|
            #[trigger] least_match_at(anns, namespace, m) && m <= i && first_match(anns, namespace)
                == Some(anns[m]),
    decreases i,
{
    if spec_path_matches(anns[0].path@, namespace) {
        assert(least_match_at(anns, namespace, 0));
    } else {
        let rest = anns.drop_first();
        lemma_first_match_least(rest, namespace, i - 1);
        let m0 = choose|m: int|
            #[trigger] least_match_at(rest, namespace, m) && m <= i - 1 && first_match(
                rest,
                namespace,
            ) == Some(rest[m]);
        assert(anns[m0 + 1] == rest[m0]);
        assert forall|k: int| 0 <= k < m0 + 1 implies !spec_path_matches(
            #[trigger] anns[k].path@,
            namespace,
        ) by {
            if k > 0 {
                assert(anns[k] == rest[k - 1]);
            }
        }
        assert(least_match_at(anns, namespace, m0 + 1));
    }
}

/// First match wins: a declaration of a recognized kind carrying two
/// annotations that both match the namespace still produces exactly one
/// report row (one `Some`, appended once by the scan), and that row is
/// built from the first matching annotation — the later one is ignored.
pub proof fn lemma_first_match_wins(
    d: Declaration,
    types: Seq<(u64, String)>,
    namespace: Seq<char>,
    i: int,
    j: int,
)
    requires
        kind_eligible(d.kind),
        0 <= i < j < d.annotations@.len(),
        spec_path_matches(d.annotations@[i].path@, namespace),
        spec_path_matches(d.annotations@[j].path@, namespace),
    ensures
        spec_row_of(d, types, namespace) is Some,
        spec_rows(seq![d], types, namespace) == seq![spec_row_of(d, types, namespace)->0],
        exists|m: int|
            #[trigger] least_match_at(d.annotations@, namespace, m) && m <= i && spec_row_of(
                d,
                types,
                namespace,
            )->0.decoded_args == spec_decode(d.annotations@[m].args).0 && spec_row_of(
                d,
                types,
                namespace,
            )->0.annotation_path == spec_pretty_path(d.annotations@[m].path@),
{
    lemma_first_match_least(d.annotations@, namespace, i);
    let one = seq![d];
    assert(one.drop_last() =~= Seq::<Declaration>::empty());
    assert(one.last() == d);
    assert(spec_rows(Seq::<Declaration>::empty(), types, namespace) =~= Seq::<RowView>::empty());
    assert(spec_rows(one, types, namespace) =~= seq![spec_row_of(d, types, namespace)->0]);
}

/// Order preservation: scanning a concatenation reports the first part's
/// rows, then the second's.  Each declaration contributes its row (or
/// nothing) in place, so any matching subset of a program yields rows in
/// the declarations' own source order, independent of how many
/// declarations between them are skipped.
pub proof fn lemma_rows_concat(
    a: Seq<Declaration>,
    b: Seq<Declaration>,
    types: Seq<(u64, String)>,
    namespace: Seq<char>,
)
    ensures
        spec_rows(a + b, types, namespace) == spec_rows(a, types, namespace) + spec_rows(
            b,
            types,
            namespace,
        ),
    decreases b.len(),
{
    if b.len() == 0 {
        assert(a + b =~= a);
        assert(spec_rows(a, types, namespace) + spec_rows(b, types, namespace) =~= spec_rows(
            a,
            types,
            namespace,
        ));
    } else {
        lemma_rows_concat(a, b.drop_last(), types, namespace);
        assert((a + b).drop_last() =~= a + b.drop_last());
        assert((a + b).last() == b.last());
        assert(spec_rows(a + b, types, namespace) =~= spec_rows(a, types, namespace) + spec_rows(
            b,
            types,
            namespace,
        ));
    }
}

} // verus!
