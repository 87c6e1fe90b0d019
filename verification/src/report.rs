//! Serializing report rows, and errors, to display strings.
//!
//! Pure formatting: one line per row in a fixed layout, no filtering,
//! sorting or aggregation.  Writing the text to a stream is the caller's
//! business.

use vstd::prelude::*;
use crate::scanner::{EngineError, ReportRow, RowView};

verus! {

/// The fixed layout of one report line:
/// `<declaration-name>: <resolved-type-display> (<decoded-argument-string>)`.
pub open spec fn spec_format_row(row: RowView) -> Seq<char> {
    row.decl_name + ": "@ + row.resolved_type + " ("@ + row.decoded_args + ")"@
}

/// Render one report row in the fixed layout.
pub fn format_row(row: &ReportRow) -> (r: String)
    ensures
        r@ == spec_format_row(row@),
{
    let mut line = row.decl_name.clone();
    line.append(": ");
    line.append(row.resolved_type.as_str());
    line.append(" (");
    line.append(row.decoded_args.as_str());
    line.append(")");
    proof {
        assert(line@ =~= spec_format_row(row@));
    }
    line
}

/// The whole report: each row's line followed by a newline, in row order.
pub open spec fn spec_format_report(rows: Seq<RowView>) -> Seq<char>
    decreases rows.len(),
{
    if rows.len() == 0 {
        Seq::<char>::empty()
    } else {
        spec_format_report(rows.drop_last()) + spec_format_row(rows.last()) + "\n"@
    }
}

/// Render the whole report, one newline-terminated line per row.
pub fn format_report(rows: &Vec<ReportRow>) -> (r: String)
    ensures
        r@ == spec_format_report(rows.deep_view()),
{
    let mut out = String::new();
    let mut i: usize = 0;
    while i < rows.len()
        invariant
            i <= rows@.len(),
            out@ == spec_format_report(rows.deep_view().take(i as int)),
        decreases rows@.len() - i,
    {
        let line = format_row(&rows[i]);
        out.append(line.as_str());
        out.append("\n");
        proof {
            let dv = rows.deep_view();
            let taken = dv.take(i as int + 1);
            assert(taken.drop_last() =~= dv.take(i as int));
            assert(taken.last() == dv[i as int]);
            assert(out@ =~= spec_format_report(taken));
        }
        i = i + 1;
    }
    proof {
        assert(rows.deep_view().take(rows.deep_view().len() as int) =~= rows.deep_view());
    }
    out
}

/// The front end's diagnostics joined into one block, one per line.
pub open spec fn spec_joined_lines(lines: Seq<String>) -> Seq<char>
    decreases lines.len(),
{
    if lines.len() == 0 {
        Seq::<char>::empty()
    } else {
        spec_joined_lines(lines.drop_last()) + lines.last()@ + "\n"@
    }
}

/// The display form of each fatal failure.
pub open spec fn spec_describe(e: EngineError) -> Seq<char> {
    match e {
        EngineError::Compilation { diagnostics } => "compilation failed:\n"@ + spec_joined_lines(
            diagnostics@,
        ),
        EngineError::UnknownDeclaration { .. } => "resolved type requested for an unknown declaration"@,
    }
}

impl EngineError {
    /// A human-readable account of the failure: a fixed headline, and for
    /// a failed compilation the front end's diagnostics, one per line.
    pub fn describe(&self) -> (r: String)
        ensures
            r@ == spec_describe(*self),
    {
        match self {
            EngineError::Compilation { diagnostics } => {
                let mut out = "compilation failed:\n".to_owned();
                let mut i: usize = 0;
                proof {
                    assert(out@ =~= "compilation failed:\n"@ + spec_joined_lines(
                        diagnostics@.take(0),
                    ));
                }
                while i < diagnostics.len()
                    invariant
                        i <= diagnostics@.len(),
                        out@ == "compilation failed:\n"@ + spec_joined_lines(
                            diagnostics@.take(i as int),
                        ),
                    decreases diagnostics@.len() - i,
                {
                    out.append(diagnostics[i].as_str());
                    out.append("\n");
                    proof {
                        let taken = diagnostics@.take(i as int + 1);
                        assert(taken.drop_last() =~= diagnostics@.take(i as int));
                        assert(taken.last() == diagnostics@[i as int]);
                        assert(out@ =~= "compilation failed:\n"@ + spec_joined_lines(taken));
                    }
                    i = i + 1;
                }
                proof {
                    assert(diagnostics@.take(diagnostics@.len() as int) =~= diagnostics@);
                }
                out
            },
            EngineError::UnknownDeclaration { .. } => {
                "resolved type requested for an unknown declaration".to_owned()
            },
        }
    }
}

} // verus!
