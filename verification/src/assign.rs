//! Parsing of value bindings: `let [mut] IDENT : TYPE => VALUE ;`. The
//! statement's collected tokens, whitespace already dropped, are validated
//! positionally. Every positional mismatch is a syntactic diagnostic, a
//! duplicate name in the declaring scope is a semantic diagnostic, and
//! either aborts just this statement.

use vstd::prelude::*;

use crate::ast::{
    spec_kw_let, spec_kw_mut, spec_vis_of, AssignmentMeta, Expr, Metadata, RawToken, RawTokenView,
    Token, Ty, MUTABLE, TY_UNKNOWN,
};
use crate::diag::{report_semantic, report_syntactic, Emitter, ErrorKind, Level};
use crate::lexer::spec_shapes;
use crate::scope::{spec_has, ScopeTree, SymbolKind, SymbolKindView};
use crate::session::{spec_resolve_ty, Session};

verus! {

/// Whether the optional `mut` modifier follows the keyword: the offset it
/// adds to every later position.
pub open spec fn spec_let_off(ts: Seq<RawTokenView>) -> int {
    if ts.len() >= 2 && ts[1] == RawTokenView::Ident(spec_kw_mut()) {
        1
    } else {
        0
    }
}

/// The valid shape of a binding statement, whitespace already dropped:
/// the keyword, an optional `mut`, the name, a colon, a type name known
/// as a built-in or registered in the session's table, the arrow, and a
/// numeric literal — nothing more.
pub open spec fn spec_let_shape(ts: Seq<RawTokenView>, table: Seq<(usize, Seq<u8>)>) -> bool {
    let off = spec_let_off(ts);
    &&& ts.len() == 6 + off
    &&& ts[0] == RawTokenView::Ident(spec_kw_let())
    &&& ts[1 + off] is Ident
    &&& ts[2 + off] is Colon
    &&& ts[3 + off] is Ident
    &&& spec_resolve_ty(ts[3 + off]->Ident_0, table) is Some
    &&& ts[4 + off] is Assign
    &&& ts[5 + off] is Number
}

/// The declared name of a valid binding statement.
pub open spec fn spec_let_ident(ts: Seq<RawTokenView>) -> Seq<u8> {
    ts[1 + spec_let_off(ts)]->Ident_0
}

/// The declared type of a valid binding statement.
pub open spec fn spec_let_ty(ts: Seq<RawTokenView>, table: Seq<(usize, Seq<u8>)>) -> Ty {
    match spec_resolve_ty(ts[3 + spec_let_off(ts)]->Ident_0, table) {
        Some(t) => t,
        None => Ty(TY_UNKNOWN),
    }
}

/// The literal on the right-hand side of a valid binding statement.
pub open spec fn spec_let_value(ts: Seq<RawTokenView>) -> Seq<u8> {
    ts[5 + spec_let_off(ts)]->Number_0
}

/// The metadata after folding in the optional `mut` modifier.
pub open spec fn spec_let_meta(ts: Seq<RawTokenView>, flags: u8) -> u8 {
    if spec_let_off(ts) == 1 {
        flags | MUTABLE
    } else {
        flags
    }
}

/// The effect a binding statement must have: on the valid shape with a
/// fresh name, the name enters the declaring scope and the typed node
/// comes back; a duplicate is one semantic diagnostic, any positional
/// mismatch one syntactic diagnostic, and the scope is then unchanged.
pub open spec fn spec_assignment_post(
    ts: Seq<RawTokenView>,
    table: Seq<(usize, Seq<u8>)>,
    flags: u8,
    local_before: Seq<(Seq<u8>, SymbolKindView)>,
    local_after: Seq<(Seq<u8>, SymbolKindView)>,
    errs_before: Seq<crate::diag::DiagnosticView>,
    errs_after: Seq<crate::diag::DiagnosticView>,
    r: Option<Expr>,
) -> bool {
    &&& (spec_let_shape(ts, table) && !spec_has(local_before, spec_let_ident(ts)) ==> (r matches Some(e)
        && (e matches Expr::Assignment { ident, ty, value, meta: m } && ident@ == spec_let_ident(
        ts,
    ) && ty == spec_let_ty(ts, table) && ((*value) matches Expr::Literal(v) && v@ == spec_let_value(ts))
        && m.spec_flags() == spec_let_meta(ts, flags)) && local_after == local_before.push(
        (
            spec_let_ident(ts),
            SymbolKindView::Assignment(spec_let_ty(ts, table), spec_vis_of(spec_let_meta(ts, flags))),
        ),
    ) && errs_after == errs_before))
    &&& (spec_let_shape(ts, table) && spec_has(local_before, spec_let_ident(ts)) ==> r is None
        && local_after == local_before && errs_after.len() == errs_before.len() + 1
        && errs_after.last().kind == ErrorKind::Semantic && errs_after.last().level
        == Level::HardError)
    &&& (!spec_let_shape(ts, table) ==> r is None && local_after == local_before && errs_after.len()
        == errs_before.len() + 1 && errs_after.last().kind == ErrorKind::Syntactic
        && errs_after.last().level == Level::HardError)
}

/// Validates one whitespace-free binding run positionally and applies it
/// to the scope behind `h`.
pub fn parse_assignment_tokens(
    toks: &Vec<Token>,
    meta: AssignmentMeta,
    tree: &mut ScopeTree,
    h: usize,
    session: &Session,
    emitter: &mut Emitter,
) -> (r: Option<Expr>)
    requires
        old(tree).wf(),
        old(tree).valid_handle(h),
    ensures
        final(tree).wf(),
        final(tree).scope_count() == old(tree).scope_count(),
        old(emitter)@.is_prefix_of(final(emitter)@),
        r is None ==> final(emitter)@.len() > old(emitter)@.len(),
        forall|h2: usize|
            old(tree).valid_handle(h2) ==> final(tree).spec_parent_of(h2) == old(
                tree,
            ).spec_parent_of(h2) && final(tree).spec_kind_of(h2) == old(tree).spec_kind_of(h2),
        forall|h2: usize|
            old(tree).valid_handle(h2) && h2 != h ==> final(tree).local(h2) == old(tree).local(h2),
        spec_assignment_post(
            spec_shapes(toks@),
            session.table_view(),
            meta.spec_flags(),
            old(tree).local(h),
            final(tree).local(h),
            old(emitter)@,
            final(emitter)@,
            r,
        ),
{
    let ghost ts = spec_shapes(toks@);
    let ghost table = session.table_view();
    let (line, column): (u32, u32) = if toks.len() > 0 {
        (toks[0].line, toks[0].column)
    } else {
        (0, 0)
    };

    if toks.len() < 2 {
        proof {
            assert(!spec_let_shape(ts, table));
        }
        report_syntactic(emitter, line, column, "binding statement is too short");
        return None;
    }
    let off: usize = match toks[1].as_ident() {
        Some(id) => {
            if crate::util::eq3(id.as_slice(), 'm' as u8, 'u' as u8, 't' as u8) {
                1
            } else {
                0
            }
        },
        None => 0,
    };
    proof {
        assert(off as int == spec_let_off(ts));
    }
    if toks.len() != 6 + off {
        proof {
            assert(!spec_let_shape(ts, table));
        }
        report_syntactic(emitter, line, column, "binding statement has the wrong number of tokens");
        return None;
    }
    let is_let = match toks[0].as_ident() {
        Some(id) => crate::util::eq3(id.as_slice(), 'l' as u8, 'e' as u8, 't' as u8),
        None => false,
    };
    if !is_let {
        proof {
            assert(ts[0] != RawTokenView::Ident(spec_kw_let()));
            assert(!spec_let_shape(ts, table));
        }
        report_syntactic(emitter, line, column, "expected the keyword `let`");
        return None;
    }
    let ident: Vec<u8> = match toks[1 + off].as_ident() {
        Some(id) => vstd::slice::slice_to_vec(id.as_slice()),
        None => {
            proof {
                assert(!spec_let_shape(ts, table));
            }
            report_syntactic(emitter, line, column, "expected an identifier after `let`");
            return None;
        },
    };
    if !matches!(toks[2 + off].as_raw(), RawToken::Colon) {
        proof {
            assert(!spec_let_shape(ts, table));
        }
        report_syntactic(emitter, line, column, "expected a colon after the identifier");
        return None;
    }
    let ty: Ty = match toks[3 + off].as_ident() {
        Some(tyname) => {
            match Ty::try_get(tyname.as_slice(), session) {
                Some(t) => t,
                None => {
                    proof {
                        assert(!spec_let_shape(ts, table));
                    }
                    report_syntactic(emitter, line, column, "expected a registered type name");
                    return None;
                },
            }
        },
        None => {
            proof {
                assert(!spec_let_shape(ts, table));
            }
            report_syntactic(emitter, line, column, "expected a type name after the colon");
            return None;
        },
    };
    if !matches!(toks[4 + off].as_raw(), RawToken::Assign) {
        proof {
            assert(!spec_let_shape(ts, table));
        }
        report_syntactic(emitter, line, column, "expected `=>` before the value");
        return None;
    }
    let value: Vec<u8> = match toks[5 + off].as_number() {
        Some(v) => vstd::slice::slice_to_vec(v.as_slice()),
        None => {
            proof {
                assert(!spec_let_shape(ts, table));
            }
            report_syntactic(emitter, line, column, "expected a value literal");
            return None;
        },
    };
    proof {
        assert(spec_let_shape(ts, table));
        assert(ident@ == spec_let_ident(ts));
        assert(ty == spec_let_ty(ts, table));
        assert(value@ == spec_let_value(ts));
    }
    let meta = if off == 1 {
        meta.add_flag(MUTABLE)
    } else {
        meta
    };
    let vis = meta.to_vis();
    let name_for_scope = vstd::slice::slice_to_vec(ident.as_slice());
    let entered = tree.enter_symbol_into_scope(h, name_for_scope, SymbolKind::Assignment(ty, vis));
    if !entered {
        report_semantic(emitter, line, column, "redeclaration of a name in the same scope");
        return None;
    }
    Some(Expr::Assignment { ident, ty, value: Box::new(Expr::Literal(value)), meta })
}

/// A binding enters its name exactly once: after a successful parse of
/// `let IDENT : T => LITERAL ;` the name is present in the declaring
/// scope, so by [`spec_assignment_post`] a second parse of the identical
/// statement in the same scope yields no node, leaves the scope unchanged,
/// and records one semantic diagnostic.
pub proof fn lemma_redeclaration_rejected(
    ts: Seq<RawTokenView>,
    table: Seq<(usize, Seq<u8>)>,
    flags: u8,
    local0: Seq<(Seq<u8>, SymbolKindView)>,
    local1: Seq<(Seq<u8>, SymbolKindView)>,
    local2: Seq<(Seq<u8>, SymbolKindView)>,
    errs0: Seq<crate::diag::DiagnosticView>,
    errs1: Seq<crate::diag::DiagnosticView>,
    errs2: Seq<crate::diag::DiagnosticView>,
    r1: Option<Expr>,
    r2: Option<Expr>,
)
    requires
        spec_let_shape(ts, table),
        !spec_has(local0, spec_let_ident(ts)),
        spec_assignment_post(ts, table, flags, local0, local1, errs0, errs1, r1),
        spec_assignment_post(ts, table, flags, local1, local2, errs1, errs2, r2),
    ensures
        r1 is Some,
        spec_has(local1, spec_let_ident(ts)),
        r2 is None,
        local2 == local1,
        errs2.len() == errs1.len() + 1,
        errs2.last().kind == ErrorKind::Semantic,
{
    let name = spec_let_ident(ts);
    assert(local1 == local0.push(
        (
            name,
            SymbolKindView::Assignment(
                spec_let_ty(ts, table),
                crate::ast::spec_vis_of(spec_let_meta(ts, flags)),
            ),
        ),
    ));
    assert(local1[local0.len() as int].0 == name);
}

} // verus!
