use attr_scan::decoder::decode_args;
use attr_scan::matcher::{path_matches, pretty_path};
use attr_scan::report::{format_report, format_row};
use attr_scan::sample;
use attr_scan::scanner::{scan, scan_compilation, CompilationError, EngineError, FrontEnd, ReportRow};
use attr_scan::syntax::{Annotation, ArgSyntax, DeclKind, Declaration, Lit, LitKind, TokenKind, TokenTree};

fn segments(parts: &[&str]) -> Vec<String> {
    parts.iter().map(|p| p.to_string()).collect()
}

fn str_tok(text: &str) -> TokenTree {
    TokenTree::Token(TokenKind::Literal(Lit { kind: LitKind::Str, symbol: text.to_string() }))
}

fn int_tok(text: &str) -> TokenTree {
    TokenTree::Token(TokenKind::Literal(Lit { kind: LitKind::Int, symbol: text.to_string() }))
}

fn ident_tok(name: &str) -> TokenTree {
    TokenTree::Token(TokenKind::Ident(name.to_string()))
}

fn punct_tok(c: char) -> TokenTree {
    TokenTree::Token(TokenKind::Punct(c))
}

fn ann(parts: &[&str], args: ArgSyntax) -> Annotation {
    Annotation { path: segments(parts), args }
}

fn decl(id: u64, name: &str, kind: DeclKind, annotations: Vec<Annotation>) -> Declaration {
    Declaration { id, name: name.to_string(), kind, annotations }
}

fn session_of(decls: Vec<Declaration>) -> FrontEnd {
    let types = decls.iter().map(|d| (d.id, format!("ty#{}", d.id))).collect();
    FrontEnd { decls, types }
}

fn row_names(rows: &[ReportRow]) -> Vec<String> {
    rows.iter().map(|r| r.decl_name.clone()).collect()
}

#[test]
fn namespace_exact_match() {
    let ns = "smpl".to_string();
    assert!(path_matches(&segments(&["smpl", "capture"]), &ns));
    assert!(path_matches(&segments(&["smpl"]), &ns));
    assert!(!path_matches(&segments(&["other", "smpl"]), &ns));
}

#[test]
fn namespace_prefix_does_not_match() {
    assert!(!path_matches(&segments(&["smplx", "capture"]), &"smpl".to_string()));
    assert!(!path_matches(&segments(&["smpl"]), &"smplx".to_string()));
    assert!(!path_matches(&segments(&["Smpl"]), &"smpl".to_string()));
}

#[test]
fn empty_path_does_not_match() {
    assert!(!path_matches(&segments(&[]), &"smpl".to_string()));
}

#[test]
fn empty_args_decode() {
    let (text, found) = decode_args(&ArgSyntax::Empty);
    assert_eq!(text, "EMPTY");
    assert!(found);
}

#[test]
fn key_equals_decode() {
    let lit = Lit { kind: LitKind::Str, symbol: "v".to_string() };
    let (text, found) = decode_args(&ArgSyntax::KeyEquals(lit));
    assert_eq!(text, "Found EQ attribute form");
    assert!(found);
}

#[test]
fn string_literals_extracted_in_order() {
    let args = ArgSyntax::Delimited(vec![str_tok("a"), int_tok("42"), str_tok("b")]);
    let (text, found) = decode_args(&args);
    assert_eq!(text, "\"a\"\"b\"");
    assert!(found);
}

#[test]
fn no_literal_args_decode() {
    let args = ArgSyntax::Delimited(vec![ident_tok("x"), punct_tok(','), ident_tok("y")]);
    let (text, found) = decode_args(&args);
    assert_eq!(text, "Unknown argument");
    assert!(!found);
}

#[test]
fn non_string_literals_skipped() {
    let args = ArgSyntax::Delimited(vec![int_tok("7"), int_tok("8")]);
    let (text, found) = decode_args(&args);
    assert_eq!(text, "Unknown argument");
    assert!(!found);
}

#[test]
fn nested_group_skipped() {
    let inner = TokenTree::Delimited(vec![str_tok("inside")]);
    let args = ArgSyntax::Delimited(vec![inner, str_tok("outside")]);
    let (text, found) = decode_args(&args);
    assert_eq!(text, "\"outside\"");
    assert!(found);
}

#[test]
fn pretty_path_joins_segments() {
    assert_eq!(pretty_path(&segments(&["smpl", "map"])), "smpl::map");
    assert_eq!(pretty_path(&segments(&["lone"])), "lone");
}

#[test]
fn first_match_wins() {
    let d = decl(
        1,
        "twice",
        DeclKind::Function,
        vec![
            ann(&["smpl", "first"], ArgSyntax::Delimited(vec![str_tok("one")])),
            ann(&["smpl", "second"], ArgSyntax::Delimited(vec![str_tok("two")])),
        ],
    );
    let fe = session_of(vec![d]);
    let rows = scan(&fe, &"smpl".to_string()).unwrap();
    assert_eq!(rows.len(), 1);
    assert_eq!(rows[0].annotation_path, "smpl::first");
    assert_eq!(rows[0].decoded_args, "\"one\"");
}

#[test]
fn later_matching_annotation_still_found() {
    let d = decl(
        1,
        "second_wins",
        DeclKind::Function,
        vec![
            ann(&["other", "tool"], ArgSyntax::Empty),
            ann(&["smpl", "mark"], ArgSyntax::Delimited(vec![str_tok("z")])),
        ],
    );
    let fe = session_of(vec![d]);
    let rows = scan(&fe, &"smpl".to_string()).unwrap();
    assert_eq!(rows.len(), 1);
    assert_eq!(rows[0].annotation_path, "smpl::mark");
    assert_eq!(rows[0].decoded_args, "\"z\"");
}

#[test]
fn order_preserved() {
    let fe = session_of(vec![
        decl(1, "a", DeclKind::Function, vec![ann(&["smpl", "m"], ArgSyntax::Empty)]),
        decl(2, "b", DeclKind::Function, vec![]),
        decl(3, "c", DeclKind::Static, vec![ann(&["smpl", "m"], ArgSyntax::Empty)]),
        decl(4, "d", DeclKind::Function, vec![ann(&["other", "m"], ArgSyntax::Empty)]),
        decl(5, "e", DeclKind::StructDef, vec![ann(&["smpl", "m"], ArgSyntax::Empty)]),
    ]);
    let rows = scan(&fe, &"smpl".to_string()).unwrap();
    assert_eq!(row_names(&rows), vec!["a", "c", "e"]);
}

#[test]
fn kind_filter() {
    let fe = session_of(vec![
        decl(1, "a_trait", DeclKind::Trait, vec![ann(&["smpl", "m"], ArgSyntax::Empty)]),
        decl(2, "a_module", DeclKind::Module, vec![ann(&["smpl", "m"], ArgSyntax::Empty)]),
        decl(3, "something_else", DeclKind::OtherDecl, vec![ann(&["smpl", "m"], ArgSyntax::Empty)]),
    ]);
    let rows = scan(&fe, &"smpl".to_string()).unwrap();
    assert!(rows.is_empty());
}

#[test]
fn failed_compilation_is_fatal() {
    let failed = CompilationError { diagnostics: vec!["expected `;`".to_string()] };
    let result = scan_compilation(Err(failed), &"smpl".to_string());
    match result {
        Err(EngineError::Compilation { diagnostics }) => {
            assert_eq!(diagnostics, vec!["expected `;`".to_string()]);
        }
        _ => panic!("a failed compilation must be fatal and produce no rows"),
    }
}

#[test]
fn unknown_declaration_reported() {
    let fe = FrontEnd {
        decls: vec![decl(7, "ghostly", DeclKind::Function, vec![ann(&["smpl", "m"], ArgSyntax::Empty)])],
        types: vec![],
    };
    match scan(&fe, &"smpl".to_string()) {
        Err(EngineError::UnknownDeclaration { id }) => assert_eq!(id, 7),
        _ => panic!("a matched declaration without a resolved type must be fatal"),
    }
}

#[test]
fn unregistered_namespace_reports_nothing() {
    let fe = sample::session();
    let rows = scan(&fe, &"other".to_string()).unwrap();
    assert!(rows.is_empty());
}

#[test]
fn sample_session_report() {
    let fe = sample::session();
    let rows = scan(&fe, &"smpl".to_string()).unwrap();
    assert_eq!(rows.len(), 2);
    assert_eq!(rows[0].annotation_path, "smpl::map");
    assert_eq!(rows[0].decl_name, "Foo");
    assert_eq!(rows[0].resolved_type, "Foo");
    assert_eq!(rows[0].decoded_args, "EMPTY");
    assert_eq!(rows[1].annotation_path, "smpl::map");
    assert_eq!(rows[1].decl_name, "hello");
    assert_eq!(rows[1].resolved_type, "fn() {hello}");
    assert_eq!(rows[1].decoded_args, "\"hello maps\"");
    assert_eq!(
        format_report(&rows),
        "Foo: Foo (EMPTY)\nhello: fn() {hello} (\"hello maps\")\n"
    );
}

#[test]
fn resolved_type_lookup() {
    let fe = sample::session();
    assert_eq!(fe.resolved_type_of(3).unwrap(), "fn() {qux}");
    match fe.resolved_type_of(99) {
        Err(EngineError::UnknownDeclaration { id }) => assert_eq!(id, 99),
        _ => panic!("an identity outside the session must not resolve"),
    }
}

#[test]
fn declarations_query() {
    let fe = sample::session();
    let names: Vec<String> = fe.declarations().iter().map(|d| d.name.clone()).collect();
    assert_eq!(names, vec!["Foo", "bar", "qux", "hello"]);
}

#[test]
fn format_row_layout() {
    let row = ReportRow {
        annotation_path: "smpl::map".to_string(),
        decl_name: "hello".to_string(),
        resolved_type: "fn() {hello}".to_string(),
        decoded_args: "\"hello maps\"".to_string(),
    };
    assert_eq!(format_row(&row), "hello: fn() {hello} (\"hello maps\")");
}

#[test]
fn describe_compilation_error() {
    let e = EngineError::Compilation {
        diagnostics: vec!["expected `;`".to_string(), "mismatched types".to_string()],
    };
    assert_eq!(e.describe(), "compilation failed:\nexpected `;`\nmismatched types\n");
    let u = EngineError::UnknownDeclaration { id: 3 };
    assert_eq!(u.describe(), "resolved type requested for an unknown declaration");
}
