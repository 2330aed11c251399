//! Resolution of standalone expression statements: binary arithmetic over
//! identifiers and literals, identifier copies, and calls. Operand types
//! come from the scope tree; two identifier operands must share a type or
//! widen in one direction, a literal adopts the identifier's type, and two
//! bare literals default to the unsigned 32-bit type.

use vstd::prelude::*;

use crate::ast::{BinOp, Expr, RawTokenView, Token, Ty, TY_UINT32};
use crate::diag::{report_semantic, report_syntactic, Emitter, ErrorKind, Level};
use crate::lexer::spec_shapes;
use crate::scope::{ContextKind, ScopeTree, SymbolKind, SymbolKindView};

verus! {

/// The type behind an identifier operand: it must resolve to a value
/// binding of a numeric type.
pub open spec fn spec_numeric_assign_ty(tree: ScopeTree, h: usize, id: Seq<u8>) -> Option<Ty> {
    match tree.resolve(h, id) {
        Some(SymbolKindView::Assignment(t, _)) => if t.spec_is_number() {
            Some(t)
        } else {
            None
        },
        _ => None,
    }
}

/// The joined type of two operand types: the shared type, or the wider one
/// when a widening conversion holds in exactly one direction.
pub open spec fn spec_widen_join(a: Ty, b: Ty) -> Option<Ty> {
    if a.spec_can_widen(b) {
        Some(b)
    } else if b.spec_can_widen(a) {
        Some(a)
    } else {
        None
    }
}

/// The operator an operator token resolves to.
pub open spec fn spec_binop_of(o: RawTokenView) -> BinOp {
    if o is Plus {
        BinOp::Plus
    } else {
        BinOp::Minus
    }
}

/// Whether both operand tokens have an operand shape at all.
pub open spec fn spec_binary_operands_ok(l: RawTokenView, r: RawTokenView) -> bool {
    (l is Number || l is Ident) && (r is Number || r is Ident)
}

/// The text an operand contributes to its node.
pub open spec fn spec_operand_text(t: RawTokenView) -> Seq<u8> {
    match t {
        RawTokenView::Number(v) => v,
        RawTokenView::Ident(i) => i,
        _ => Seq::<u8>::empty(),
    }
}

/// The child and result types of a binary expression, or nothing when the
/// operands cannot be unified: two literals default to the unsigned 32-bit
/// type, a literal adopts the identifier's type, and two identifiers join
/// by the widening rule.
pub open spec fn spec_binary_tys(tree: ScopeTree, h: usize, l: RawTokenView, r: RawTokenView) -> Option<
    (Ty, Ty, Ty),
> {
    match (l, r) {
        (RawTokenView::Number(_), RawTokenView::Number(_)) => Some(
            (Ty(TY_UINT32), Ty(TY_UINT32), Ty(TY_UINT32)),
        ),
        (RawTokenView::Ident(li), RawTokenView::Number(_)) => match spec_numeric_assign_ty(
            tree,
            h,
            li,
        ) {
            Some(t) => Some((t, t, t)),
            None => None,
        },
        (RawTokenView::Number(_), RawTokenView::Ident(ri)) => match spec_numeric_assign_ty(
            tree,
            h,
            ri,
        ) {
            Some(t) => Some((t, t, t)),
            None => None,
        },
        (RawTokenView::Ident(li), RawTokenView::Ident(ri)) => match (spec_numeric_assign_ty(
            tree,
            h,
            li,
        ), spec_numeric_assign_ty(tree, h, ri)) {
            (Some(a), Some(b)) => match spec_widen_join(a, b) {
                Some(t) => Some((a, b, t)),
                None => None,
            },
            _ => None,
        },
        _ => None,
    }
}

/// Looks up the numeric value-binding type of an identifier operand.
fn numeric_assign_ty(tree: &ScopeTree, h: usize, id: &[u8]) -> (r: Option<Ty>)
    requires
        tree.wf(),
        tree.valid_handle(h),
    ensures
        r == spec_numeric_assign_ty(*tree, h, id@),
{
    match tree.kind_for_symbol(h, id) {
        Some(SymbolKind::Assignment(t, _)) => {
            if t.is_number() {
                Some(t)
            } else {
                None
            }
        },
        _ => None,
    }
}

/// The effect resolving `lhs OP rhs` must have: a typed binary node over
/// the operand texts when the types unify, one syntactic diagnostic when a
/// token has the wrong shape, one semantic diagnostic when the types
/// cannot be unified.
pub open spec fn spec_binary_post(
    l: RawTokenView,
    o: RawTokenView,
    rr: RawTokenView,
    tree: ScopeTree,
    h: usize,
    ctx_kind: ContextKind,
    errs0: Seq<crate::diag::DiagnosticView>,
    errs1: Seq<crate::diag::DiagnosticView>,
    r: Option<Expr>,
) -> bool {
    &&& (!(o is Plus || o is Minus) || !spec_binary_operands_ok(l, rr) ==> r is None
        && errs1.len() == errs0.len() + 1 && errs1.last().kind == ErrorKind::Syntactic
        && errs1.last().level == Level::HardError)
    &&& ((o is Plus || o is Minus) && spec_binary_operands_ok(l, rr) ==> match spec_binary_tys(
        tree,
        h,
        l,
        rr,
    ) {
        Some(tys) => (r matches Some(e) && (e matches Expr::Binary {
            lhs: el,
            op: bo,
            rhs: er,
            ty,
            context_kind,
        } && bo == spec_binop_of(o) && ty == tys.2 && context_kind == ctx_kind && ((
        *el) matches Expr::LitOrIdent(lt, lty) && lt@ == spec_operand_text(l) && lty == tys.0)
            && ((*er) matches Expr::LitOrIdent(rt, rty) && rt@ == spec_operand_text(rr) && rty
            == tys.1))) && errs1 == errs0,
        None => r is None && errs1.len() == errs0.len() + 1 && errs1.last().kind
            == ErrorKind::Semantic && errs1.last().level == Level::HardError,
    })
}

/// Resolves the 3-token pattern `lhs OP rhs` into a typed binary node, or
/// records one diagnostic: a syntactic one when a token has the wrong
/// shape, a semantic one when the operand types cannot be unified.
pub fn resolve_binary(
    lhs: &Token,
    op: &Token,
    rhs: &Token,
    tree: &ScopeTree,
    h: usize,
    ctx_kind: ContextKind,
    emitter: &mut Emitter,
) -> (r: Option<Expr>)
    requires
        tree.wf(),
        tree.valid_handle(h),
    ensures
        old(emitter)@.is_prefix_of(final(emitter)@),
        r is None ==> final(emitter)@.len() > old(emitter)@.len(),
        spec_binary_post(
            lhs@.inner,
            op@.inner,
            rhs@.inner,
            *tree,
            h,
            ctx_kind,
            old(emitter)@,
            final(emitter)@,
            r,
        ),
{
    let line = op.line;
    let column = op.column;
    let o: BinOp = match op.as_binop() {
        Some(b) => b,
        None => {
            report_syntactic(emitter, line, column, "expected a binary operator");
            return None;
        },
    };
    let l_shape_ok = lhs.as_ident().is_some() || lhs.as_number().is_some();
    let r_shape_ok = rhs.as_ident().is_some() || rhs.as_number().is_some();
    if !l_shape_ok || !r_shape_ok {
        report_syntactic(emitter, line, column, "operands must be names or numbers");
        return None;
    }
    let lhs_ty: Option<Ty> = match lhs.as_ident() {
        Some(li) => {
            match numeric_assign_ty(tree, h, li.as_slice()) {
                Some(t) => Some(t),
                None => {
                    report_semantic(
                        emitter,
                        line,
                        column,
                        "left operand does not name a numeric value binding",
                    );
                    return None;
                },
            }
        },
        None => None,
    };
    let rhs_ty: Option<Ty> = match rhs.as_ident() {
        Some(ri) => {
            match numeric_assign_ty(tree, h, ri.as_slice()) {
                Some(t) => Some(t),
                None => {
                    report_semantic(
                        emitter,
                        line,
                        column,
                        "right operand does not name a numeric value binding",
                    );
                    return None;
                },
            }
        },
        None => None,
    };
    let (lty, rty, ty): (Ty, Ty, Ty) = match (lhs_ty, rhs_ty) {
        (None, None) => (Ty(TY_UINT32), Ty(TY_UINT32), Ty(TY_UINT32)),
        (Some(a), None) => (a, a, a),
        (None, Some(b)) => (b, b, b),
        (Some(a), Some(b)) => {
            if a.can_be_implicitly_converted(b) {
                (a, b, b)
            } else if b.can_be_implicitly_converted(a) {
                (a, b, a)
            } else {
                report_semantic(emitter, line, column, "operand types cannot be unified");
                return None;
            }
        },
    };
    let ltext: Vec<u8> = match lhs.as_ident() {
        Some(li) => vstd::slice::slice_to_vec(li.as_slice()),
        None => {
            match lhs.as_number() {
                Some(lv) => vstd::slice::slice_to_vec(lv.as_slice()),
                None => Vec::new(),
            }
        },
    };
    let rtext: Vec<u8> = match rhs.as_ident() {
        Some(ri) => vstd::slice::slice_to_vec(ri.as_slice()),
        None => {
            match rhs.as_number() {
                Some(rv) => vstd::slice::slice_to_vec(rv.as_slice()),
                None => Vec::new(),
            }
        },
    };
    Some(
        Expr::Binary {
            lhs: Box::new(Expr::LitOrIdent(ltext, lty)),
            op: o,
            rhs: Box::new(Expr::LitOrIdent(rtext, rty)),
            ty,
            context_kind: ctx_kind,
        },
    )
}


/// The byte views of a list of argument names.
pub open spec fn spec_byte_views(s: Seq<Vec<u8>>) -> Seq<Seq<u8>> {
    s.map_values(|v: Vec<u8>| v@)
}

/// Whether a statement run has the shape of a call: a name, an opening
/// paren right after it, and a closing paren at the end.
pub open spec fn spec_call_shape(ts: Seq<RawTokenView>) -> bool {
    ts.len() >= 3 && ts[0] is Ident && ts[1] is LeftParen && ts.last() is RightParen
}

/// The bare identifier arguments in `ts[i .. end]`: every identifier not
/// immediately followed by an opening paren. An identifier that opens a
/// nested call contributes its own bare arguments instead, so collection
/// does not stop at a nested closing paren.
pub open spec fn spec_bare_args(ts: Seq<RawTokenView>, i: int, end: int) -> Seq<Seq<u8>>
    decreases end - i,
    when i >= 0
{
    if i >= end || i >= ts.len() {
        Seq::<Seq<u8>>::empty()
    } else {
        let rest = spec_bare_args(ts, i + 1, end);
        match ts[i] {
            RawTokenView::Ident(id) => if !(i + 1 < ts.len() && ts[i + 1] is LeftParen) {
                seq![id] + rest
            } else {
                rest
            },
            _ => rest,
        }
    }
}

/// Collects the bare identifier arguments of a call run.
fn collect_bare_args(toks: &Vec<Token>, start: usize, end: usize) -> (args: Vec<Vec<u8>>)
    requires
        start <= end <= toks@.len(),
    ensures
        spec_byte_views(args@) == spec_bare_args(spec_shapes(toks@), start as int, end as int),
{
    let ghost ts = spec_shapes(toks@);
    let mut args: Vec<Vec<u8>> = Vec::new();
    let mut i = start;
    proof {
        assert(spec_byte_views(args@) =~= Seq::<Seq<u8>>::empty());
    }
    while i < end
        invariant
            start <= i <= end <= toks@.len(),
            ts == spec_shapes(toks@),
            spec_bare_args(ts, start as int, end as int) == spec_byte_views(args@)
                + spec_bare_args(ts, i as int, end as int),
        decreases end - i,
    {
        let take: bool = match toks[i].as_ident() {
            Some(_) => {
                if i + 1 < toks.len() {
                    !matches!(toks[i + 1].as_raw(), crate::ast::RawToken::LeftParen)
                } else {
                    true
                }
            },
            None => false,
        };
        if take {
            let id = match toks[i].as_ident() {
                Some(id) => vstd::slice::slice_to_vec(id.as_slice()),
                None => Vec::new(),
            };
            let ghost old_views = spec_byte_views(args@);
            let ghost idv = id@;
            args.push(id);
            proof {
                assert(spec_byte_views(args@) =~= old_views.push(idv));
                assert(old_views.push(idv) + spec_bare_args(ts, i as int + 1, end as int)
                    =~= old_views + (seq![idv] + spec_bare_args(ts, i as int + 1, end as int)));
            }
        }
        i = i + 1;
    }
    proof {
        assert(spec_byte_views(args@) + Seq::<Seq<u8>>::empty() =~= spec_byte_views(args@));
    }
    args
}

/// The effect an identifier-led statement must have: a call shape must
/// resolve to a function and collects its bare arguments; a lone name in
/// scope becomes a copy node; three tokens resolve as a binary expression
/// under the scope's own context kind; anything else is one diagnostic.
pub open spec fn spec_ident_statement_post(
    ts: Seq<RawTokenView>,
    tree: ScopeTree,
    h: usize,
    errs0: Seq<crate::diag::DiagnosticView>,
    errs1: Seq<crate::diag::DiagnosticView>,
    r: Option<Expr>,
) -> bool {
    &&& (ts.len() >= 2 && ts[0] is Ident && ts[1] is LeftParen ==> {
        let callee = ts[0]->Ident_0;
        &&& (!spec_call_shape(ts) ==> r is None && errs1.len() == errs0.len() + 1
            && errs1.last().kind == ErrorKind::Syntactic)
        &&& (spec_call_shape(ts) ==> match tree.resolve(h, callee) {
            Some(SymbolKindView::Function(ret, _, _)) => (r matches Some(e) && (
            e matches Expr::Call { ident, args, ret_ty } && ident@ == callee && ret_ty == ret
                && spec_byte_views(args@) == spec_bare_args(ts, 2, ts.len() - 1))) && errs1
                == errs0,
            Some(_) => r is None && errs1.len() == errs0.len() + 1 && errs1.last().kind
                == ErrorKind::Semantic && errs1.last().level == Level::HardError,
            None => r is None && errs1.len() == errs0.len() + 1 && errs1.last().kind
                == ErrorKind::Semantic,
        })
    })
    &&& (!(ts.len() >= 2 && ts[0] is Ident && ts[1] is LeftParen) ==> {
        &&& (ts.len() == 1 && ts[0] is Ident ==> {
            let id = ts[0]->Ident_0;
            &&& (tree.resolve(h, id) is Some ==> (r matches Some(e) && (e matches Expr::Copy(c)
                && c@ == id)) && errs1 == errs0)
            &&& (tree.resolve(h, id) is None ==> r is None && errs1.len() == errs0.len() + 1
                && errs1.last().kind == ErrorKind::Semantic)
        })
        &&& (ts.len() == 3 ==> spec_binary_post(
            ts[0],
            ts[1],
            ts[2],
            tree,
            h,
            tree.spec_kind_of(h),
            errs0,
            errs1,
            r,
        ))
        &&& (!(ts.len() == 1 && ts[0] is Ident) && ts.len() != 3 ==> r is None && errs1.len()
            == errs0.len() + 1 && errs1.last().kind == ErrorKind::Syntactic)
    })
}

/// Resolves a statement that starts with an identifier outside any known
/// construct. A name followed by an opening paren is a prospective call
/// and must resolve to a function — a value binding or alias there is a
/// "not callable" semantic diagnostic, never a call node. A lone name in
/// scope becomes a copy node; one out of scope is a semantic diagnostic.
/// Three tokens resolve as a binary expression.
pub fn resolve_ident_statement(
    toks: &Vec<Token>,
    tree: &ScopeTree,
    h: usize,
    emitter: &mut Emitter,
) -> (r: Option<Expr>)
    requires
        tree.wf(),
        tree.valid_handle(h),
    ensures
        old(emitter)@.is_prefix_of(final(emitter)@),
        r is None ==> final(emitter)@.len() > old(emitter)@.len(),
        spec_ident_statement_post(
            spec_shapes(toks@),
            *tree,
            h,
            old(emitter)@,
            final(emitter)@,
            r,
        ),
{
    let ghost ts = spec_shapes(toks@);
    let (line, column): (u32, u32) = if toks.len() > 0 {
        (toks[0].line, toks[0].column)
    } else {
        (0, 0)
    };
    let head_is_ident = toks.len() >= 1 && toks[0].is_ident();
    let is_call_start = toks.len() >= 2 && head_is_ident && matches!(
        toks[1].as_raw(),
        crate::ast::RawToken::LeftParen,
    );
    if is_call_start {
        if !(toks.len() >= 3 && matches!(
            toks[toks.len() - 1].as_raw(),
            crate::ast::RawToken::RightParen,
        )) {
            proof {
                assert(ts.last() == ts[ts.len() - 1]);
                assert(!spec_call_shape(ts));
            }
            report_syntactic(emitter, line, column, "unclosed call argument list");
            return None;
        }
        proof {
            assert(spec_call_shape(ts));
        }
        let callee: Vec<u8> = match toks[0].as_ident() {
            Some(id) => vstd::slice::slice_to_vec(id.as_slice()),
            None => Vec::new(),
        };
        match tree.kind_for_symbol(h, callee.as_slice()) {
            Some(SymbolKind::Function(ret, _, _)) => {
                let args = collect_bare_args(toks, 2, toks.len() - 1);
                Some(Expr::Call { ident: callee, args, ret_ty: ret })
            },
            Some(_) => {
                report_semantic(emitter, line, column, "this name is not callable");
                None
            },
            None => {
                report_semantic(emitter, line, column, "call of an unresolved identifier");
                None
            },
        }
    } else if toks.len() == 1 && head_is_ident {
        let id: Vec<u8> = match toks[0].as_ident() {
            Some(id) => vstd::slice::slice_to_vec(id.as_slice()),
            None => Vec::new(),
        };
        if tree.symbol_is_in_scope(h, id.as_slice()) {
            Some(Expr::Copy(id))
        } else {
            report_semantic(emitter, line, column, "unresolved identifier");
            None
        }
    } else if toks.len() == 3 {
        let kind = tree.context_kind(h);
        resolve_binary(&toks[0], &toks[1], &toks[2], tree, h, kind, emitter)
    } else {
        report_syntactic(emitter, line, column, "this statement has no recognizable shape");
        None
    }
}

/// Bare-argument collection never stops early: the arguments of a run are
/// the arguments of any left part followed by the arguments of the rest,
/// so an interior closing paren of a nested call cannot end the scan.
pub proof fn lemma_bare_args_split(ts: Seq<RawTokenView>, i: int, mid: int, end: int)
    requires
        0 <= i <= mid <= end,
    ensures
        spec_bare_args(ts, i, end) == spec_bare_args(ts, i, mid) + spec_bare_args(ts, mid, end),
    decreases mid - i,
{
    if i == mid {
        assert(spec_bare_args(ts, i, mid) =~= Seq::<Seq<u8>>::empty());
        assert(Seq::<Seq<u8>>::empty() + spec_bare_args(ts, mid, end) =~= spec_bare_args(
            ts,
            mid,
            end,
        ));
    } else {
        lemma_bare_args_split(ts, i + 1, mid, end);
        if i < ts.len() {
            match ts[i] {
                RawTokenView::Ident(id) => {
                    if !(i + 1 < ts.len() && ts[i + 1] is LeftParen) {
                        assert(seq![id] + (spec_bare_args(ts, i + 1, mid) + spec_bare_args(
                            ts,
                            mid,
                            end,
                        )) =~= (seq![id] + spec_bare_args(ts, i + 1, mid)) + spec_bare_args(
                            ts,
                            mid,
                            end,
                        ));
                    }
                },
                _ => {},
            }
        } else {
            assert(spec_bare_args(ts, i, end) =~= Seq::<Seq<u8>>::empty());
            assert(spec_bare_args(ts, i, mid) =~= Seq::<Seq<u8>>::empty());
            assert(spec_bare_args(ts, mid, end) =~= Seq::<Seq<u8>>::empty());
        }
    }
}

/// Whether a built-in integer type id is signed.
pub open spec fn spec_is_signed(t: Ty) -> bool {
    t.0 <= crate::ast::TY_INT64
}

/// No cross-signedness unification: two distinct numeric types of
/// different signedness never join, so a binary expression over them is
/// rejected. Within one signedness the join is the wider type.
pub proof fn lemma_no_cross_signedness(a: Ty, b: Ty)
    requires
        a.spec_is_number(),
        b.spec_is_number(),
        spec_is_signed(a) != spec_is_signed(b),
    ensures
        spec_widen_join(a, b) is None,
{
}

/// The widening join is the wider type: whenever the narrower operand
/// widens to the other, the join is that other type, and joining a type
/// with itself gives it back.
pub proof fn lemma_widen_join_wider(a: Ty, b: Ty)
    ensures
        a.spec_can_widen(b) ==> spec_widen_join(a, b) == Some(b),
        a == b ==> spec_widen_join(a, b) == Some(a),
{
}

} // verus!
