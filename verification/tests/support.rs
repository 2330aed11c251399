//! Checks of the supporting pieces: the token reader's exact offsets and
//! kinds, the scope tree, the session's type table, the diagnostics
//! emitter, the fixed-capacity array, the byte string, packages, the
//! command line, and the backend writer.

use betac::ast::{RawToken, Ty, TY_UINT32};
use betac::backend::{BackendError, IrCodegen, WriteIr};
use betac::diag::{Diagnostic, Emitter, ErrorKind, Level};
use betac::heap_array::{HeapArray, HeapArrayError, TryPushError};
use betac::lexer::SourceCodeReader;
use betac::nodes::{Assign, AtomicMetadata, Metadata as NodeMetadata, PreprocKind, PprocType, PreprocessorStmt, Span};
use betac::pack::{Package, PackageKind, PackageLoader, Vis};
use betac::reports::{MissingIdent, Reportable};
use betac::runner::{parse_command_line_args, Response, Session as RunnerSession};
use betac::scope::{Context, GlobalContext, ScopeTree, SubContext, SymbolKind, ContextKind, PackageContext};
use betac::session::Session;
use betac::sso::Sso;
use betac::token::{Token as RawOffsetToken, TokenKind};
use betac::tokenizer::Tokenizer;

fn kinds_of(src: &str) -> Vec<RawToken> {
    let mut reader = SourceCodeReader::init(src.as_bytes().to_vec());
    let mut out = Vec::new();
    loop {
        let t = reader.next_token(0);
        let eof = matches!(t.inner, RawToken::Eof);
        out.push(t.inner);
        if eof {
            return out;
        }
    }
}

#[test]
fn reader_tokenizes_a_binding_with_exact_offsets() {
    let mut reader = SourceCodeReader::init(b"let x: Int64 => 0;".to_vec());
    let t = reader.next_token(0);
    assert!(matches!(&t.inner, RawToken::Ident(id) if id == &b"let".to_vec()));
    assert_eq!((t.start, t.end), (0, 3));
    let t = reader.next_token(0);
    assert!(matches!(t.inner, RawToken::Whitespace));
    assert_eq!((t.start, t.end), (3, 4));
    let t = reader.next_token(0);
    assert!(matches!(&t.inner, RawToken::Ident(id) if id == &b"x".to_vec()));
    let t = reader.next_token(0);
    assert!(matches!(t.inner, RawToken::Colon));
    let t = reader.next_token(0);
    assert!(matches!(t.inner, RawToken::Whitespace));
    let t = reader.next_token(0);
    assert!(matches!(&t.inner, RawToken::Ident(id) if id == &b"Int64".to_vec()));
    let t = reader.next_token(0);
    assert!(matches!(t.inner, RawToken::Whitespace));
    let t = reader.next_token(0);
    assert!(matches!(t.inner, RawToken::Assign));
    assert_eq!(t.end - t.start, 2);
    let t = reader.next_token(0);
    assert!(matches!(t.inner, RawToken::Whitespace));
    let t = reader.next_token(0);
    assert!(matches!(&t.inner, RawToken::Number(n) if n == &b"0".to_vec()));
    let t = reader.next_token(0);
    assert!(matches!(t.inner, RawToken::Semi));
    let t = reader.next_token(7);
    assert!(matches!(t.inner, RawToken::Eof));
    assert_eq!(t.line, 7);
    // End of input repeats without moving.
    let t2 = reader.next_token(7);
    assert!(matches!(t2.inner, RawToken::Eof));
    assert_eq!(t2.start, t.start);
}

#[test]
fn reader_knows_two_character_operators() {
    let ks = kinds_of(":: => == = + - ,");
    assert!(matches!(ks[0], RawToken::Path));
    assert!(matches!(ks[2], RawToken::Assign));
    assert!(matches!(ks[4], RawToken::EqEq(_)));
    assert!(matches!(ks[6], RawToken::OneEq(61)));
    assert!(matches!(ks[8], RawToken::Plus));
    assert!(matches!(ks[10], RawToken::Minus));
    assert!(matches!(ks[12], RawToken::Comma));
}

#[test]
fn number_scan_stops_at_base_boundary() {
    // A hex literal runs over hex digits only; a binary literal over
    // binary digits only; a decimal one over decimal digits only.
    let ks = kinds_of("0x1F 0b10 1234 0b12");
    assert!(matches!(&ks[0], RawToken::Number(n) if n == &b"0x1F".to_vec()));
    assert!(matches!(&ks[2], RawToken::Number(n) if n == &b"0b10".to_vec()));
    assert!(matches!(&ks[4], RawToken::Number(n) if n == &b"1234".to_vec()));
    // In `0b12` the scan stops before the 2, which starts its own literal.
    assert!(matches!(&ks[6], RawToken::Number(n) if n == &b"0b1".to_vec()));
    assert!(matches!(&ks[7], RawToken::Number(n) if n == &b"2".to_vec()));
}

#[test]
fn unrecognized_byte_becomes_unknown_token() {
    let ks = kinds_of("?");
    assert!(matches!(ks[0], RawToken::Unknown(63)));
}

#[test]
fn scope_tree_chains_lookups_through_parents() {
    let mut tree = ScopeTree::init();
    assert!(tree.enter_symbol_into_scope(
        0,
        b"g".to_vec(),
        SymbolKind::Assignment(Ty(TY_UINT32), Vis::Private)
    ));
    let child = tree.new_child_context(0, ContextKind::Function);
    let grandchild = tree.new_child_context(child, ContextKind::Block);
    // Visible from every descendant.
    assert!(tree.symbol_is_in_scope(grandchild, b"g"));
    // Shadowing in a descendant wins there, but not above.
    assert!(tree.enter_symbol_into_scope(
        grandchild,
        b"g".to_vec(),
        SymbolKind::Alias(Vis::Public)
    ));
    assert!(matches!(
        tree.kind_for_symbol(grandchild, b"g"),
        Some(SymbolKind::Alias(_))
    ));
    assert!(matches!(
        tree.kind_for_symbol(child, b"g"),
        Some(SymbolKind::Assignment(_, _))
    ));
    // A second insertion of the same name in the same scope is refused.
    assert!(!tree.enter_symbol_into_scope(
        0,
        b"g".to_vec(),
        SymbolKind::Alias(Vis::Public)
    ));
    // The parent-delegating write path lands in the parent scope.
    assert!(tree.enter_symbol_into_parent_scope(
        grandchild,
        b"h".to_vec(),
        SymbolKind::Alias(Vis::Public)
    ));
    assert!(tree.symbol_is_in_scope(child, b"h"));
    assert!(!tree.symbol_is_in_scope(0, b"h"));
    assert_eq!(tree.context_kind(child), ContextKind::Function);
    assert_eq!(tree.parent_context_kind(grandchild), ContextKind::Function);
}

#[test]
fn session_allocates_and_registers_user_types() {
    let mut session = Session::builder().build(Vec::new());
    let t1 = Ty::gen_from_session(&mut session);
    let t2 = Ty::gen_from_session(&mut session);
    assert_eq!(t1.0, betac::ast::OFFSET_FROM_BUILTIN);
    assert_eq!(t2.0, betac::ast::OFFSET_FROM_BUILTIN + 1);
    let t1 = t1.register(b"Vector".to_vec(), &mut session);
    assert_eq!(t1.get(&session), Some(&b"Vector".to_vec()));
    assert_eq!(t2.get(&session), None);
    assert_eq!(
        Ty::try_get(b"Uint32", &session),
        Some(Ty(TY_UINT32))
    );
    // A registered name resolves to its interned id; an unknown one does
    // not resolve.
    assert_eq!(Ty::try_get(b"Vector", &session), Some(t1));
    assert_eq!(Ty::try_get(b"Matrix", &session), None);
}

#[test]
fn emitter_keeps_order_and_flushes_once() {
    let mut emitter = Emitter::new();
    emitter.report(Diagnostic {
        line: 1,
        column: 2,
        kind: ErrorKind::Lexical,
        level: Level::Warning,
        message: "first",
        token: None,
    });
    emitter.report(Diagnostic {
        line: 3,
        column: 4,
        kind: ErrorKind::Semantic,
        level: Level::HardError,
        message: "second",
        token: None,
    });
    assert!(emitter.has_hard_error());
    let drained = emitter.flush();
    assert_eq!(drained.len(), 2);
    assert_eq!(drained[0].message, "first");
    assert_eq!(drained[1].message, "second");
    assert_eq!(emitter.len(), 0);
    assert!(!emitter.has_hard_error());
}

#[test]
fn reportable_record_builds_and_reports() {
    let mut emitter = Emitter::new();
    let rec = MissingIdent::builder()
        .line(9)
        .column(4)
        .message("expected a name here");
    assert_eq!(rec.line, 9);
    assert_eq!(Reportable::level(&rec), Level::HardError);
    rec.report(&mut emitter);
    assert_eq!(emitter.len(), 1);
    assert_eq!(emitter.get(0).line, 9);
    assert_eq!(emitter.get(0).kind, ErrorKind::Syntactic);
}

#[test]
fn heap_array_refuses_pushes_past_capacity() {
    let arr: Result<HeapArray<u32>, _> = HeapArray::with_cap(0);
    assert!(matches!(arr, Err(HeapArrayError::LenIsUnexpectedlyZero)));
    let mut arr: HeapArray<u32> = HeapArray::with_cap(2).unwrap();
    assert_eq!(arr.capacity(), 2);
    assert!(arr.try_push(10).is_ok());
    arr.push(20);
    assert_eq!(arr.len(), 2);
    match arr.try_push(30) {
        Err(TryPushError::WouldOverflow(x)) => assert_eq!(x, 30),
        _ => panic!("a full array must refuse"),
    }
    assert_eq!(*arr.index_at(0), 10);
    assert_eq!(arr.pop(), Some(20));
    assert_eq!(arr.pop(), Some(10));
    assert_eq!(arr.pop(), None);
}

#[test]
fn test_has_niche() {
    assert!(
        std::mem::size_of::<HeapArray<i32>>() == std::mem::size_of::<Option<HeapArray<i32>>>()
    )
}

#[test]
fn test_sso_has_niche() {
    assert!(std::mem::size_of::<Sso>() == std::mem::size_of::<Option<Sso>>())
}

#[test]
fn sso_round_trips_bytes() {
    let s = Sso::from_string(String::from("hello"));
    assert_eq!(s.as_bytes(), b"hello");
    assert_eq!(s.len(), 5);
    let b = Sso::borrowed("abc");
    assert_eq!(b.as_bytes(), b"abc");
    let c = b.borrow();
    assert_eq!(c.as_bytes(), b"abc");
    let d = Sso::from_bytes(vec![1, 2, 3]);
    assert_eq!(d.as_bytes(), &[1, 2, 3]);
}

#[test]
fn package_bundles_global_symbols() {
    let mut ctx = GlobalContext::init();
    assert!(ctx.enter_symbol_into_scope(
        b"alpha".to_vec(),
        SymbolKind::Assignment(Ty(TY_UINT32), Vis::Public)
    ));
    let pack = Package::from_name_and_ctx(
        b"core".to_vec(),
        b"src".to_vec(),
        b"core::lib".to_vec(),
        Vis::Public,
        PackageKind::Internal,
        &ctx,
    );
    assert_eq!(pack.name(), &b"core".to_vec());
    let mut loader = PackageLoader::init();
    loader.add_package_to_scope(pack);
    loader.add_symbols_to_context(&mut ctx);
    // The stub changes nothing: alpha is still the only entry.
    assert!(ctx.symbol_is_in_scope(b"alpha"));
}

#[test]
fn package_context_finds_registered_scopes() {
    let mut pc = PackageContext::init();
    let g = GlobalContext::init();
    pc.enter_global_context(b"main".to_vec(), g);
    assert!(pc.get_global_context(b"main").is_some());
    assert!(pc.get_global_context(b"other").is_none());
}

#[test]
fn subcontext_keeps_its_own_symbols() {
    let mut sub = SubContext::init(0, ContextKind::Block);
    assert_eq!(sub.kind(), ContextKind::Block);
    assert_eq!(sub.parent(), 0);
    assert!(sub.enter_symbol_into_scope(
        b"q".to_vec(),
        SymbolKind::Alias(Vis::Private)
    ));
    assert!(sub.symbol_is_in_scope(b"q"));
    assert!(!sub.enter_symbol_into_scope(
        b"q".to_vec(),
        SymbolKind::Alias(Vis::Private)
    ));
    assert!(matches!(sub.kind_for_symbol(b"q"), Some(SymbolKind::Alias(_))));
}

#[test]
fn command_line_decisions() {
    let mut session = RunnerSession::new();
    let args = vec![b"--help".to_vec()];
    assert!(matches!(
        parse_command_line_args(&args, &mut session),
        Ok(Response::Help)
    ));
    let args = vec![b"--version".to_vec()];
    assert!(matches!(
        parse_command_line_args(&args, &mut session),
        Ok(Response::Version)
    ));
    let args = vec![
        b"compile".to_vec(),
        b"main.bc".to_vec(),
        b"-dbg".to_vec(),
        b"-fbt".to_vec(),
    ];
    match parse_command_line_args(&args, &mut session) {
        Ok(Response::Run { file_name }) => assert_eq!(file_name, b"main.bc".to_vec()),
        _ => panic!("compile must run"),
    }
    assert!(session.has_compile_mode_flag_set());
    assert!(session.has_debug_mode_enabled());
    assert!(session.has_full_tree_backtrace_set());
    assert!(!session.has_build_mode_flag_set());
    // A repeated switch fails.
    let mut fresh = RunnerSession::new();
    let args = vec![b"compile".to_vec(), b"m.bc".to_vec(), b"-dbg".to_vec(), b"-dbg".to_vec()];
    assert!(parse_command_line_args(&args, &mut fresh).is_err());
    // An unknown command fails.
    let args = vec![b"explode".to_vec()];
    assert!(parse_command_line_args(&args, &mut fresh).is_err());
    // A build run sets its mode.
    let mut b = RunnerSession::new();
    let args = vec![b"build".to_vec()];
    assert!(matches!(parse_command_line_args(&args, &mut b), Ok(Response::Build)));
    assert!(b.has_build_mode_flag_set());
}

#[test]
fn backend_writer_appends_and_maps_ids() {
    let mut w = IrCodegen::init();
    let n = w.write_str("define ");
    assert_eq!(n, 7);
    let id = w.inc_and_return();
    assert_eq!(id, 1);
    w.id_and_ident(b"x".to_vec(), id);
    assert_eq!(w.id_for_ident(b"x"), Some(1));
    assert_eq!(w.id_for_ident(b"y"), None);
    assert!(betac::ast::BinOp::Plus.lower(&mut w).is_ok());
    assert!(betac::ast::BinOp::Minus.lower(&mut w).is_ok());
    assert_eq!(
        betac::ast::BinOp::EqEq.lower(&mut w),
        Err(BackendError::Other)
    );
    let n2 = w.write_bytes(b"ret");
    assert_eq!(n2, 3);
    assert_eq!(w.as_bytes(), b"define add sub ret");
    assert_eq!(Ty(betac::ast::TY_BOOL).to_llvm_name(), Some("i1 "));
    assert_eq!(Ty(betac::ast::TY_UINT8).to_llvm_name(), None);
}

#[test]
fn backend_renders_argument_lists() {
    let mut w = IrCodegen::init();
    let a = w.inc_and_return();
    w.id_and_ident(b"x".to_vec(), a);
    let b2 = w.inc_and_return();
    w.id_and_ident(b"y".to_vec(), b2);
    let args = vec![b"x".to_vec(), b"y".to_vec()];
    assert!(betac::backend::write_args(&args, &mut w).is_ok());
    assert_eq!(w.as_bytes(), b"(%x1, %y2)");
    // An unknown name is refused.
    let unknown = vec![b"z".to_vec()];
    assert!(betac::backend::write_args(&unknown, &mut w).is_err());
}

#[test]
fn decimal_rendering_is_exact() {
    assert_eq!(betac::backend::encode_decimal(0), b"0".to_vec());
    assert_eq!(betac::backend::encode_decimal(7), b"7".to_vec());
    assert_eq!(betac::backend::encode_decimal(40968), b"40968".to_vec());
}

#[test]
fn cursor_peeks_without_consuming() {
    let mut c = Tokenizer::new(b"ab".to_vec());
    assert!(!c.is_eof());
    assert_eq!(c.next(), b'b');
    assert_eq!(c.nth_prev(1), b'b');
    assert_eq!(c.nth_prev(5), 0);
    assert_eq!(c.bump(), Some(b'a'));
    assert_eq!(c.prev(), b'a');
    assert_eq!(c.bump(), Some(b'b'));
    assert_eq!(c.bump(), None);
    assert!(c.is_eof());
}

#[test]
fn compact_tokens_report_fixed_widths() {
    let t = RawOffsetToken { kind: TokenKind::FatArrow, start: 4 };
    assert_eq!(t.len(), Some(2));
    assert_eq!(t.kind(), TokenKind::FatArrow);
    let w = RawOffsetToken { kind: TokenKind::Whitespace, start: 0 };
    assert!(w.is_whitespace_or_newline());
    assert_eq!(w.len(), Some(1));
    let id = RawOffsetToken { kind: TokenKind::Ident, start: 9 };
    assert_eq!(id.len(), None);
    assert!(!id.is_whitespace_or_newline());
}

#[test]
fn node_records_keep_their_fields() {
    let name = RawOffsetToken { kind: TokenKind::Ident, start: 4 };
    let ty = RawOffsetToken { kind: TokenKind::Ident, start: 7 };
    let a = Assign::new(name, ty, NodeMetadata(1), 4, 12);
    assert_eq!(a.id_name.start, 4);
    assert_eq!(a.id_type.start, 7);
    assert_eq!(a.span.start_pos, 4);
    assert_eq!(a.span.len, 12);
    assert!(a.span.meta.is_static());
    let d = Assign::dummy();
    assert_eq!(d.id_name.kind, TokenKind::Eof);

    let mut acc = AtomicMetadata(0);
    acc.add_flag(betac::nodes::NODE_STATIC);
    assert_eq!(acc.get(), 1);
    assert!(acc.to_metadata().is_static());

    let p = PreprocessorStmt::new(PreprocKind::AtEval { eval_span: Span::dummy() });
    assert_eq!(p.pproc_type(), PprocType::Eval);
    let q = PreprocessorStmt::dummy();
    assert_eq!(q.pproc_type(), PprocType::Start);
}

#[test]
fn session_options_fold_through_the_builder() {
    let session = Session::builder()
        .input(b"main.bc".to_vec())
        .output_to(b"out".to_vec())
        .add_option(betac::session::Options(betac::session::INCLUDE_WARNINGS_AS_ERRORS))
        .build(b"src".to_vec());
    assert!(session.has_flag_no_warnings_set());
    let plain = Session::builder().build(Vec::new());
    assert!(!plain.has_flag_no_warnings_set());
}

#[test]
fn reader_knows_the_remaining_operators() {
    // The double-character operators resolve by one character of
    // lookahead; when the second character does not match, the
    // one-character token comes out and the lookahead stays unconsumed.
    let ks = kinds_of("-> && || != <= >= < > ! & | *");
    assert!(matches!(ks[0], RawToken::CastOp));
    assert!(matches!(ks[2], RawToken::AndAnd));
    assert!(matches!(ks[4], RawToken::PipePipe));
    assert!(matches!(ks[6], RawToken::NotEq));
    assert!(matches!(ks[8], RawToken::LtEq));
    assert!(matches!(ks[10], RawToken::GtEq));
    assert!(matches!(ks[12], RawToken::Lt));
    assert!(matches!(ks[14], RawToken::Gt));
    assert!(matches!(ks[16], RawToken::Not));
    assert!(matches!(ks[18], RawToken::Ampersand));
    assert!(matches!(ks[20], RawToken::Pipe));
    assert!(matches!(ks[22], RawToken::Star));
}
