//! End-to-end checks of the parser: bindings, scope registration,
//! re-declaration, function definitions with hoisting, calls, copies,
//! imports, and the typing of binary expressions.

use betac::ast::{BinOp, Expr, Metadata, Ty, PUBLIC, TY_INT32, TY_INT64, TY_UINT32};
use betac::diag::{ErrorKind, Level};
use betac::lexer::{FnCtxOrGlobalCtx, Lexer};
use betac::pack::Vis;
use betac::scope::{ScopeTree, SymbolKind};
use betac::session::Session;

fn setup(src: &str) -> (Lexer, ScopeTree, Session) {
    let lexer = Lexer::init(src.as_bytes().to_vec());
    let tree = ScopeTree::init();
    let session = Session::builder().build(src.as_bytes().to_vec());
    (lexer, tree, session)
}

#[test]
fn simple_binding_builds_assignment_node() {
    // End-to-end: `let x: Int64 => 0;` becomes an assignment node with the
    // declared name, type and literal, and `x` enters the global scope as
    // a private value binding of Int64.
    let (mut lexer, mut tree, session) = setup("let x: Int64 => 0;");
    let expr = lexer.parse_next_expr(&mut tree, FnCtxOrGlobalCtx::Global, &session);
    match expr {
        Some(Expr::Assignment { ident, ty, value, meta }) => {
            assert_eq!(ident, b"x".to_vec());
            assert_eq!(ty, Ty(TY_INT64));
            match *value {
                Expr::Literal(v) => assert_eq!(v, b"0".to_vec()),
                _ => panic!("value is not a literal"),
            }
            assert!(!meta.is_public());
        }
        _ => panic!("expected an assignment node"),
    }
    match tree.kind_for_symbol(0, b"x") {
        Some(SymbolKind::Assignment(ty, vis)) => {
            assert_eq!(ty, Ty(TY_INT64));
            assert_eq!(vis, Vis::Private);
        }
        _ => panic!("x is not registered as a value binding"),
    }
    assert_eq!(lexer.errors.len(), 0);
}

#[test]
fn reparsing_identical_binding_is_rejected() {
    let (mut lexer, mut tree, session) = setup("let x: Int64 => 0;\nlet x: Int64 => 0;");
    let first = lexer.parse_next_expr(&mut tree, FnCtxOrGlobalCtx::Global, &session);
    assert!(matches!(first, Some(Expr::Assignment { .. })));
    let second = lexer.parse_next_expr(&mut tree, FnCtxOrGlobalCtx::Global, &session);
    assert!(second.is_none());
    assert_eq!(lexer.errors.len(), 1);
    let d = lexer.errors.get(0);
    assert_eq!(d.kind, ErrorKind::Semantic);
    assert_eq!(d.level, Level::HardError);
    // The first declaration stands untouched.
    assert!(matches!(
        tree.kind_for_symbol(0, b"x"),
        Some(SymbolKind::Assignment(_, _))
    ));
}

#[test]
fn mut_modifier_folds_into_metadata() {
    let (mut lexer, mut tree, session) = setup("let mut m: Uint32 => 7;");
    let expr = lexer.parse_next_expr(&mut tree, FnCtxOrGlobalCtx::Global, &session);
    match expr {
        Some(Expr::Assignment { ident, meta, .. }) => {
            assert_eq!(ident, b"m".to_vec());
            assert!(meta.is_mutable());
        }
        _ => panic!("expected an assignment node"),
    }
}

#[test]
fn missing_colon_is_one_syntactic_diagnostic() {
    let (mut lexer, mut tree, session) = setup("let x Int64 => 0;");
    let expr = lexer.parse_next_expr(&mut tree, FnCtxOrGlobalCtx::Global, &session);
    assert!(expr.is_none());
    assert_eq!(lexer.errors.len(), 1);
    assert_eq!(lexer.errors.get(0).kind, ErrorKind::Syntactic);
    assert!(tree.kind_for_symbol(0, b"x").is_none());
}

#[test]
fn unknown_type_name_is_rejected() {
    let (mut lexer, mut tree, session) = setup("let x: Flooba => 0;");
    let expr = lexer.parse_next_expr(&mut tree, FnCtxOrGlobalCtx::Global, &session);
    assert!(expr.is_none());
    assert_eq!(lexer.errors.len(), 1);
    assert_eq!(lexer.errors.get(0).kind, ErrorKind::Syntactic);
}

#[test]
fn public_defun_with_binary_body() {
    // End-to-end: with `y: Uint32` in scope, a public definition whose body
    // adds its parameter to the global; the body is typed in the child
    // scope with the Function context kind, and the signature is hoisted
    // into the enclosing scope.
    let src = "let y: Uint32 => 1;\npub defun foo(x: Uint32) => Uint32 { x + y }";
    let (mut lexer, mut tree, session) = setup(src);
    let first = lexer.parse_next_expr(&mut tree, FnCtxOrGlobalCtx::Global, &session);
    assert!(matches!(first, Some(Expr::Assignment { .. })));
    let second = lexer.parse_next_expr(&mut tree, FnCtxOrGlobalCtx::Global, &session);
    match second {
        Some(Expr::Defun { meta, args, expressions, return_ty, ident }) => {
            assert_eq!(ident, b"foo".to_vec());
            assert_eq!(return_ty, Ty(TY_UINT32));
            assert!(meta.is_public());
            assert_eq!(args.len(), 1);
            assert_eq!(args[0].0, b"x".to_vec());
            assert_eq!(args[0].1, Ty(TY_UINT32));
            assert_eq!(expressions.len(), 1);
            match &expressions[0] {
                Expr::Binary { lhs, op, rhs, ty, context_kind } => {
                    assert_eq!(*op, BinOp::Plus);
                    assert_eq!(*ty, Ty(TY_UINT32));
                    assert_eq!(*context_kind, betac::scope::ContextKind::Function);
                    match (&**lhs, &**rhs) {
                        (Expr::LitOrIdent(l, lt), Expr::LitOrIdent(r, rt)) => {
                            assert_eq!(l, &b"x".to_vec());
                            assert_eq!(*lt, Ty(TY_UINT32));
                            assert_eq!(r, &b"y".to_vec());
                            assert_eq!(*rt, Ty(TY_UINT32));
                        }
                        _ => panic!("operands are not named operands"),
                    }
                }
                _ => panic!("body statement is not a binary node"),
            }
        }
        _ => panic!("expected a definition node"),
    }
    match tree.kind_for_symbol(0, b"foo") {
        Some(SymbolKind::Function(ret, params, vis)) => {
            assert_eq!(ret, Ty(TY_UINT32));
            assert_eq!(params, vec![Ty(TY_UINT32)]);
            assert_eq!(vis, Vis::Public);
        }
        _ => panic!("foo is not hoisted into the enclosing scope"),
    }
    assert_eq!(lexer.errors.len(), 0);
}

#[test]
fn call_collects_bare_arguments_through_nesting() {
    // Argument collection for f(g(x), y) yields exactly [x, y]: it does
    // not stop at g's closing paren and does not take g itself.
    let src = "let x: Uint32 => 1;\nlet y: Uint32 => 2;\ndefun g(a: Uint32) => Uint32;\ndefun f(a: Uint32, b: Uint32) => Uint32;\nf(g(x), y);";
    let (mut lexer, mut tree, session) = setup(src);
    for _ in 0..4 {
        let e = lexer.parse_next_expr(&mut tree, FnCtxOrGlobalCtx::Global, &session);
        assert!(e.is_some());
    }
    let call = lexer.parse_next_expr(&mut tree, FnCtxOrGlobalCtx::Global, &session);
    match call {
        Some(Expr::Call { ident, args, ret_ty }) => {
            assert_eq!(ident, b"f".to_vec());
            assert_eq!(args, vec![b"x".to_vec(), b"y".to_vec()]);
            assert_eq!(ret_ty, Ty(TY_UINT32));
        }
        _ => panic!("expected a call node"),
    }
    assert_eq!(lexer.errors.len(), 0);
}

#[test]
fn calling_a_value_binding_is_a_semantic_diagnostic() {
    // If v is declared via let, parsing v(1) produces a semantic
    // diagnostic, never a call node.
    let (mut lexer, mut tree, session) = setup("let v: Uint32 => 1;\nv(1);");
    let first = lexer.parse_next_expr(&mut tree, FnCtxOrGlobalCtx::Global, &session);
    assert!(matches!(first, Some(Expr::Assignment { .. })));
    let second = lexer.parse_next_expr(&mut tree, FnCtxOrGlobalCtx::Global, &session);
    assert!(second.is_none());
    assert_eq!(lexer.errors.len(), 1);
    let d = lexer.errors.get(0);
    assert_eq!(d.kind, ErrorKind::Semantic);
    assert_eq!(d.level, Level::HardError);
}

#[test]
fn widening_types_in_binary_statements() {
    // Int16 combined with Int32 yields Int32.
    let src = "let a: Int16 => 1;\nlet b: Int32 => 2;\na + b;";
    let (mut lexer, mut tree, session) = setup(src);
    for _ in 0..2 {
        lexer.parse_next_expr(&mut tree, FnCtxOrGlobalCtx::Global, &session);
    }
    let e = lexer.parse_next_expr(&mut tree, FnCtxOrGlobalCtx::Global, &session);
    match e {
        Some(Expr::Binary { ty, .. }) => assert_eq!(ty, Ty(TY_INT32)),
        _ => panic!("expected a binary node"),
    }
    assert_eq!(lexer.errors.len(), 0);
}

#[test]
fn cross_signedness_operands_are_rejected() {
    // Uint16 combined with Int16 is rejected: no cross-signedness
    // unification.
    let src = "let u: Uint16 => 1;\nlet s: Int16 => 2;\nu + s;";
    let (mut lexer, mut tree, session) = setup(src);
    for _ in 0..2 {
        lexer.parse_next_expr(&mut tree, FnCtxOrGlobalCtx::Global, &session);
    }
    let e = lexer.parse_next_expr(&mut tree, FnCtxOrGlobalCtx::Global, &session);
    assert!(e.is_none());
    assert_eq!(lexer.errors.len(), 1);
    assert_eq!(lexer.errors.get(0).kind, ErrorKind::Semantic);
}

#[test]
fn literal_pair_defaults_to_unsigned_32() {
    let (mut lexer, mut tree, session) = setup("1 + 2;");
    let e = lexer.parse_next_expr(&mut tree, FnCtxOrGlobalCtx::Global, &session);
    match e {
        Some(Expr::Binary { ty, lhs, rhs, .. }) => {
            assert_eq!(ty, Ty(TY_UINT32));
            assert!(matches!(*lhs, Expr::LitOrIdent(_, t) if t == Ty(TY_UINT32)));
            assert!(matches!(*rhs, Expr::LitOrIdent(_, t) if t == Ty(TY_UINT32)));
        }
        _ => panic!("expected a binary node"),
    }
}

#[test]
fn copy_of_a_name_in_scope() {
    let (mut lexer, mut tree, session) = setup("let c: Uint32 => 3;\nc;");
    lexer.parse_next_expr(&mut tree, FnCtxOrGlobalCtx::Global, &session);
    let e = lexer.parse_next_expr(&mut tree, FnCtxOrGlobalCtx::Global, &session);
    match e {
        Some(Expr::Copy(name)) => assert_eq!(name, b"c".to_vec()),
        _ => panic!("expected a copy node"),
    }
}

#[test]
fn unresolved_identifier_statement_is_semantic() {
    let (mut lexer, mut tree, session) = setup("ghostly;");
    let e = lexer.parse_next_expr(&mut tree, FnCtxOrGlobalCtx::Global, &session);
    assert!(e.is_none());
    assert_eq!(lexer.errors.len(), 1);
    assert_eq!(lexer.errors.get(0).kind, ErrorKind::Semantic);
}

#[test]
fn import_with_path_parts() {
    let (mut lexer, mut tree, session) = setup("import std::io::fmt;");
    let e = lexer.parse_next_expr(&mut tree, FnCtxOrGlobalCtx::Global, &session);
    match e {
        Some(Expr::Import { root, rest, .. }) => {
            assert_eq!(root, b"std".to_vec());
            assert_eq!(rest, vec![b"io".to_vec(), b"fmt".to_vec()]);
        }
        _ => panic!("expected an import node"),
    }
}

#[test]
fn eof_is_terminal_and_idempotent() {
    let (mut lexer, mut tree, session) = setup("   \n ");
    let first = lexer.parse_next_expr(&mut tree, FnCtxOrGlobalCtx::Global, &session);
    assert!(matches!(first, Some(Expr::Eof)));
    assert!(matches!(
        lexer.current().as_raw(),
        betac::ast::RawToken::Eof
    ));
    // Whitespace never enters the lookback, but the newline does: it is
    // the most recent non-whitespace token.
    assert!(matches!(
        lexer.last_significant_token().as_raw(),
        betac::ast::RawToken::NewLine
    ));
    let second = lexer.parse_next_expr(&mut tree, FnCtxOrGlobalCtx::Global, &session);
    assert!(matches!(second, Some(Expr::Eof)));
}

#[test]
fn unknown_byte_is_a_lexical_diagnostic() {
    let (mut lexer, mut tree, session) = setup("?");
    let e = lexer.parse_next_expr(&mut tree, FnCtxOrGlobalCtx::Global, &session);
    assert!(e.is_none());
    assert_eq!(lexer.errors.len(), 1);
    assert_eq!(lexer.errors.get(0).kind, ErrorKind::Lexical);
    assert_eq!(lexer.errors.get(0).level, Level::HardError);
}

#[test]
fn parameter_shadows_enclosing_binding() {
    // A symbol declared in an enclosing scope is visible in the child
    // scope unless the child shadows it with a same-named declaration.
    let src = "let x: Int64 => 0;\ndefun h(x: Uint32) => Uint32 { x + x }";
    let (mut lexer, mut tree, session) = setup(src);
    lexer.parse_next_expr(&mut tree, FnCtxOrGlobalCtx::Global, &session);
    let e = lexer.parse_next_expr(&mut tree, FnCtxOrGlobalCtx::Global, &session);
    match e {
        Some(Expr::Defun { expressions, .. }) => {
            assert_eq!(expressions.len(), 1);
            match &expressions[0] {
                Expr::Binary { ty, .. } => assert_eq!(*ty, Ty(TY_UINT32)),
                _ => panic!("body statement is not a binary node"),
            }
        }
        _ => panic!("expected a definition node"),
    }
}

#[test]
fn template_defun_has_empty_body() {
    let (mut lexer, mut tree, session) = setup("defun proto(a: Uint32) => Uint32;");
    let e = lexer.parse_next_expr(&mut tree, FnCtxOrGlobalCtx::Global, &session);
    match e {
        Some(Expr::Defun { expressions, ident, .. }) => {
            assert_eq!(ident, b"proto".to_vec());
            assert!(expressions.is_empty());
        }
        _ => panic!("expected a definition node"),
    }
    assert!(matches!(
        tree.kind_for_symbol(0, b"proto"),
        Some(SymbolKind::Function(_, _, _))
    ));
}

#[test]
fn defun_can_call_itself_through_hoisting() {
    // The signature is hoisted before the body is parsed, so the body can
    // call the function it belongs to.
    let src = "defun rec(n: Uint32) => Uint32 { rec(n) }";
    let (mut lexer, mut tree, session) = setup(src);
    let e = lexer.parse_next_expr(&mut tree, FnCtxOrGlobalCtx::Global, &session);
    match e {
        Some(Expr::Defun { expressions, .. }) => {
            assert_eq!(expressions.len(), 1);
            match &expressions[0] {
                Expr::Call { ident, args, ret_ty } => {
                    assert_eq!(ident, &b"rec".to_vec());
                    assert_eq!(args, &vec![b"n".to_vec()]);
                    assert_eq!(*ret_ty, Ty(TY_UINT32));
                }
                _ => panic!("body statement is not a call"),
            }
        }
        _ => panic!("expected a definition node"),
    }
    assert_eq!(lexer.errors.len(), 0);
}

#[test]
fn widening_relation_values() {
    assert!(Ty(betac::ast::TY_INT16).can_be_implicitly_converted(Ty(TY_INT32)));
    assert!(Ty(TY_INT32).can_be_implicitly_converted(Ty(TY_INT64)));
    assert!(Ty(betac::ast::TY_UINT16).can_be_implicitly_converted(Ty(TY_UINT32)));
    assert!(!Ty(betac::ast::TY_UINT16).can_be_implicitly_converted(Ty(betac::ast::TY_INT16)));
    assert!(!Ty(betac::ast::TY_INT16).can_be_implicitly_converted(Ty(betac::ast::TY_UINT16)));
    assert!(!Ty(TY_INT64).can_be_implicitly_converted(Ty(TY_INT32)));
    assert!(Ty(TY_INT64).can_be_implicitly_converted(Ty(TY_INT64)));
    assert!(Ty(betac::ast::TY_STR).is_number() == false);
    assert!(Ty(betac::ast::TY_UINT8).is_number());
}

#[test]
fn modifier_run_accumulates_flags() {
    let (mut lexer, mut tree, session) = setup("pub static let s: Uint32 => 5;");
    let e = lexer.parse_next_expr(&mut tree, FnCtxOrGlobalCtx::Global, &session);
    match e {
        Some(Expr::Assignment { meta, .. }) => {
            assert!(meta.is_public());
            assert!(meta.is_static());
        }
        _ => panic!("expected an assignment node"),
    }
    // Public visibility carries into the scope entry.
    match tree.kind_for_symbol(0, b"s") {
        Some(SymbolKind::Assignment(_, vis)) => assert_eq!(vis, Vis::Public),
        _ => panic!("s is not registered"),
    }
}

#[test]
fn pub_and_priv_together_mean_package_scoped() {
    let (mut lexer, mut tree, session) = setup("pub priv let p: Uint32 => 5;");
    let e = lexer.parse_next_expr(&mut tree, FnCtxOrGlobalCtx::Global, &session);
    assert!(matches!(e, Some(Expr::Assignment { .. })));
    match tree.kind_for_symbol(0, b"p") {
        Some(SymbolKind::Assignment(_, vis)) => assert_eq!(vis, Vis::PackPub),
        _ => panic!("p is not registered"),
    }
}

#[test]
fn metadata_flags_mark_public_flag_set() {
    let meta = betac::ast::AnyMetadata(0).add_flag(PUBLIC);
    assert!(meta.is_public());
    assert!(!meta.is_static());
    assert_eq!(meta.to_vis(), Vis::Public);
}

#[test]
fn parsing_resumes_at_the_next_statement_boundary() {
    // A malformed statement records its diagnostic and is abandoned; the
    // statement after the boundary parses normally.
    let (mut lexer, mut tree, session) = setup("let ;\nlet y: Uint32 => 1;");
    let first = lexer.parse_next_expr(&mut tree, FnCtxOrGlobalCtx::Global, &session);
    assert!(first.is_none());
    assert_eq!(lexer.errors.len(), 1);
    assert_eq!(lexer.errors.get(0).kind, ErrorKind::Syntactic);
    let second = lexer.parse_next_expr(&mut tree, FnCtxOrGlobalCtx::Global, &session);
    assert!(matches!(second, Some(Expr::Assignment { .. })));
    assert!(matches!(
        tree.kind_for_symbol(0, b"y"),
        Some(SymbolKind::Assignment(_, _))
    ));
}

#[test]
fn brace_wrapped_value_is_not_cut_short() {
    // The statement collector tracks nesting, so a parenthesized region
    // inside the statement does not end it; only the semicolon at depth
    // zero does. The malformed value is still rejected afterwards, as one
    // diagnostic for this statement alone.
    let (mut lexer, mut tree, session) = setup("let x: Uint32 => (1);\nlet z: Uint32 => 2;");
    let first = lexer.parse_next_expr(&mut tree, FnCtxOrGlobalCtx::Global, &session);
    assert!(first.is_none());
    assert_eq!(lexer.errors.len(), 1);
    let second = lexer.parse_next_expr(&mut tree, FnCtxOrGlobalCtx::Global, &session);
    assert!(matches!(second, Some(Expr::Assignment { .. })));
}

#[test]
fn whole_program_parses_to_completion() {
    let src = "let y: Uint32 => 1;\npub defun foo(x: Uint32) => Uint32 { x + y }\nimport std::io;\nbroken here;\nlet z: Int32 => 3;";
    let session = Session::builder().build(src.as_bytes().to_vec());
    let (program, tree, mut errors) = betac::lexer::parse_program(
        src.as_bytes().to_vec(),
        &session,
    );
    // Four good statements survive; the broken one left one diagnostic.
    assert_eq!(program.len(), 4);
    assert!(matches!(program[0], Expr::Assignment { .. }));
    assert!(matches!(program[1], Expr::Defun { .. }));
    assert!(matches!(program[2], Expr::Import { .. }));
    assert!(matches!(program[3], Expr::Assignment { .. }));
    assert!(errors.has_hard_error());
    assert_eq!(errors.flush().len(), 1);
    assert!(matches!(
        tree.kind_for_symbol(0, b"z"),
        Some(SymbolKind::Assignment(_, _))
    ));
}

#[test]
fn registered_type_name_parses_in_a_binding() {
    // A user type registered in the session's table resolves in a
    // binding's type position, with the interned id on the node and in
    // the scope entry.
    let src = "let p: Point => 7;";
    let mut session = Session::builder().build(src.as_bytes().to_vec());
    let point = Ty::gen_from_session(&mut session).register(b"Point".to_vec(), &mut session);
    let mut lexer = Lexer::init(src.as_bytes().to_vec());
    let mut tree = ScopeTree::init();
    let expr = lexer.parse_next_expr(&mut tree, FnCtxOrGlobalCtx::Global, &session);
    match expr {
        Some(Expr::Assignment { ident, ty, .. }) => {
            assert_eq!(ident, b"p".to_vec());
            assert_eq!(ty, point);
            assert_eq!(ty.0, betac::ast::OFFSET_FROM_BUILTIN);
        }
        _ => panic!("expected an assignment node"),
    }
    match tree.kind_for_symbol(0, b"p") {
        Some(SymbolKind::Assignment(ty, _)) => assert_eq!(ty, point),
        _ => panic!("p is not registered"),
    }
    assert_eq!(lexer.errors.len(), 0);
}

#[test]
fn newline_count_is_exact() {
    let (mut lexer, mut tree, session) = setup("let a: Uint32 => 1;\n\nlet b: Uint32 => 2;");
    assert_eq!(lexer.nl_count(), 0);
    lexer.parse_next_expr(&mut tree, FnCtxOrGlobalCtx::Global, &session);
    lexer.parse_next_expr(&mut tree, FnCtxOrGlobalCtx::Global, &session);
    // Both newline bytes lie in the consumed prefix by now.
    assert_eq!(lexer.nl_count(), 2);
}

#[test]
fn fresh_lexer_has_default_lookback() {
    let (lexer, _tree, _session) = setup("let a: Uint32 => 1;");
    assert_eq!(lexer.nl_count(), 0);
    assert!(matches!(
        lexer.last_significant_token().as_raw(),
        betac::ast::RawToken::Eof
    ));
    assert_eq!(lexer.last_significant_token().start, 0);
}

#[test]
fn trailing_modifiers_without_a_construct_are_rejected() {
    let (mut lexer, mut tree, session) = setup("pub static");
    let e = lexer.parse_next_expr(&mut tree, FnCtxOrGlobalCtx::Global, &session);
    assert!(e.is_none());
    assert_eq!(lexer.errors.len(), 1);
    assert_eq!(lexer.errors.get(0).kind, ErrorKind::Syntactic);
}
