//! Parsing of function definitions:
//! `defun IDENT ( ARGS ) => RET_TYPE { BODY }`. The parameter list is
//! scanned to its matching closing paren with a depth counter, chunked into
//! `(name, colon, type)` triples, and registered in a fresh child scope;
//! the function's own signature is hoisted into the enclosing scope before
//! the body is parsed, so the function can call itself and be called by
//! siblings declared after it. A trailing semicolon instead of a body marks
//! a declaration-only form with an empty body.

use vstd::prelude::*;

use crate::assign::parse_assignment_tokens;
use crate::ast::{
    spec_vis_of, Argument, AssignmentMeta, DefunMeta, Expr, Metadata, RawTokenView, Token, Ty,
    TY_UNKNOWN,
};
use crate::binary::resolve_ident_statement;
use crate::diag::{report_semantic, report_syntactic, report_warning, Emitter, ErrorKind};
use crate::lexer::spec_shapes;
use crate::pack::Vis;
use crate::scope::{spec_has, ContextKind, ScopeTree, SymbolKind, SymbolKindView};
use crate::session::{spec_resolve_ty, Session};

verus! {

/// The index of the closing paren that brings the depth opened before `i`
/// back to zero, if the run has one.
pub open spec fn spec_rparen_stop(ts: Seq<RawTokenView>, i: int, depth: int) -> Option<int>
    decreases ts.len() - i,
    when i >= 0
{
    if i >= ts.len() {
        None
    } else if ts[i] is RightParen && depth == 1 {
        Some(i)
    } else {
        let depth2 = if ts[i] is LeftParen {
            depth + 1
        } else if ts[i] is RightParen {
            depth - 1
        } else {
            depth
        };
        spec_rparen_stop(ts, i + 1, depth2)
    }
}

/// A run with its comma tokens removed.
pub open spec fn spec_no_commas(s: Seq<RawTokenView>) -> Seq<RawTokenView>
    decreases s.len(),
{
    if s.len() == 0 {
        Seq::<RawTokenView>::empty()
    } else if s[0] is Comma {
        spec_no_commas(s.drop_first())
    } else {
        seq![s[0]] + spec_no_commas(s.drop_first())
    }
}

/// The parameters encoded by a comma-free run of `(name, colon, type)`
/// triples, or nothing if the run does not chunk into valid triples.
pub open spec fn spec_params_of(s: Seq<RawTokenView>, table: Seq<(usize, Seq<u8>)>) -> Option<
    Seq<(Seq<u8>, Ty)>,
>
    decreases s.len(),
{
    if s.len() == 0 {
        Some(Seq::<(Seq<u8>, Ty)>::empty())
    } else if s.len() >= 3 && s[0] is Ident && s[1] is Colon && s[2] is Ident && spec_resolve_ty(
        s[2]->Ident_0,
        table,
    ) is Some {
        let ty = match spec_resolve_ty(s[2]->Ident_0, table) {
            Some(t) => t,
            None => Ty(TY_UNKNOWN),
        };
        match spec_params_of(s.skip(3), table) {
            Some(rest) => Some(seq![(s[0]->Ident_0, ty)] + rest),
            None => None,
        }
    } else {
        None
    }
}

/// The views of a parsed parameter list.
pub open spec fn spec_arg_views(args: Seq<Argument>) -> Seq<(Seq<u8>, Ty)> {
    args.map_values(|a: Argument| (a.0@, a.1))
}

/// Scans the parameter region that starts at `idx` (just past the opening
/// paren) for its matching closing paren, drops the commas, and chunks the
/// region into `(name, colon, type)` triples. Returns the parameters and
/// the index of the closing paren; a missing closer or a malformed triple
/// is one syntactic diagnostic.
#[verifier::rlimit(60)]
pub fn parse_arguments(toks: &Vec<Token>, idx: usize, session: &Session, emitter: &mut Emitter) -> (r:
    Option<(Vec<Argument>, usize)>)
    requires
        idx <= toks@.len(),
        toks@.len() <= u32::MAX,
    ensures
        old(emitter)@.is_prefix_of(final(emitter)@),
        ({
            let ts = spec_shapes(toks@);
            match spec_rparen_stop(ts, idx as int, 1) {
                None => r is None && final(emitter)@.len() == old(emitter)@.len() + 1 && final(emitter)@.last().kind == ErrorKind::Syntactic,
                Some(stop) => match spec_params_of(
                    spec_no_commas(ts.subrange(idx as int, stop)),
                    session.table_view(),
                ) {
                    Some(ps) => (r matches Some(p) && spec_arg_views(p.0@) == ps && p.1 == stop)
                        && final(emitter)@ == old(emitter)@,
                    None => r is None && final(emitter)@.len() == old(emitter)@.len() + 1 && final(emitter)@.last().kind == ErrorKind::Syntactic,
                },
            }
        }),
{
    let ghost ts = spec_shapes(toks@);
    let ghost table = session.table_view();
    let (line, column): (u32, u32) = if toks.len() > 0 {
        (toks[0].line, toks[0].column)
    } else {
        (0, 0)
    };
    let n = toks.len();

    // Find the matching closing paren with an independent depth counter.
    let mut stop = idx;
    let mut depth: u64 = 1;
    loop
        invariant
            idx <= stop <= n,
            n == toks@.len(),
            n <= u32::MAX,
            ts == spec_shapes(toks@),
            1 <= depth <= 1 + stop - idx,
            emitter@ == old(emitter)@,
            spec_rparen_stop(ts, idx as int, 1) == spec_rparen_stop(ts, stop as int, depth as int),
        decreases n - stop,
    {
        if stop >= n {
            report_syntactic(emitter, line, column, "parameter list has no closing paren");
            return None;
        }
        let is_rparen = matches!(toks[stop].as_raw(), crate::ast::RawToken::RightParen);
        if is_rparen && depth == 1 {
            break;
        }
        if matches!(toks[stop].as_raw(), crate::ast::RawToken::LeftParen) {
            depth = depth + 1;
        } else if is_rparen {
            depth = depth - 1;
        }
        stop = stop + 1;
    }
    proof {
        assert(spec_rparen_stop(ts, stop as int, 1) == Some(stop as int));
    }

    // Drop the commas from the region.
    let ghost region = ts.subrange(idx as int, stop as int);
    let mut sig: Vec<Token> = Vec::new();
    let mut i = idx;
    proof {
        assert(spec_shapes(sig@) =~= Seq::<RawTokenView>::empty());
        assert(region.skip(0) =~= region);
    }
    while i < stop
        invariant
            idx <= i <= stop <= n,
            n == toks@.len(),
            ts == spec_shapes(toks@),
            region == ts.subrange(idx as int, stop as int),
            spec_no_commas(region) == spec_shapes(sig@) + spec_no_commas(
                region.skip(i as int - idx as int),
            ),
        decreases stop - i,
    {
        let ghost tail = region.skip(i as int - idx as int);
        proof {
            assert(tail[0] == region[i as int - idx as int]);
            assert(region[i as int - idx as int] == ts[i as int]);
            assert(tail.drop_first() =~= region.skip(i as int + 1 - idx as int));
        }
        if !matches!(toks[i].as_raw(), crate::ast::RawToken::Comma) {
            let ghost old_shapes = spec_shapes(sig@);
            sig.push(toks[i].duplicate());
            proof {
                assert(spec_shapes(sig@) =~= old_shapes.push(ts[i as int]));
                assert(old_shapes.push(ts[i as int]) + spec_no_commas(
                    region.skip(i as int + 1 - idx as int),
                ) =~= old_shapes + (seq![ts[i as int]] + spec_no_commas(
                    region.skip(i as int + 1 - idx as int),
                )));
            }
        }
        i = i + 1;
    }
    proof {
        assert(region.skip(stop as int - idx as int) =~= Seq::<RawTokenView>::empty());
        assert(spec_shapes(sig@) + Seq::<RawTokenView>::empty() =~= spec_shapes(sig@));
        assert(spec_no_commas(region) == spec_shapes(sig@));
    }

    // Chunk into (name, colon, type) triples.
    let ghost sshapes = spec_shapes(sig@);
    let m = sig.len();
    let mut args: Vec<Argument> = Vec::new();
    let mut k: usize = 0;
    proof {
        assert(spec_arg_views(args@) =~= Seq::<(Seq<u8>, Ty)>::empty());
        assert(sshapes.skip(0) =~= sshapes);
    }
    while k < m
        invariant
            k <= m,
            m == sig@.len(),
            sshapes == spec_shapes(sig@),
            emitter@ == old(emitter)@,
            spec_params_of(sshapes, table) == match spec_params_of(sshapes.skip(k as int), table) {
                Some(rest) => Some(spec_arg_views(args@) + rest),
                None => None::<Seq<(Seq<u8>, Ty)>>,
            },
        decreases m - k,
    {
        let ghost tail = sshapes.skip(k as int);
        proof {
            assert(tail[0] == sshapes[k as int]);
            if tail.len() >= 2 {
                assert(tail[1] == sshapes[k as int + 1]);
            }
            if tail.len() >= 3 {
                assert(tail[2] == sshapes[k as int + 2]);
                assert(tail.skip(3) =~= sshapes.skip(k as int + 3));
            }
        }
        if m - k < 3 {
            report_syntactic(emitter, line, column, "incomplete parameter triple");
            return None;
        }
        let name: Vec<u8> = match sig[k].as_ident() {
            Some(id) => vstd::slice::slice_to_vec(id.as_slice()),
            None => {
                report_syntactic(emitter, line, column, "expected a parameter name");
                return None;
            },
        };
        if !matches!(sig[k + 1].as_raw(), crate::ast::RawToken::Colon) {
            report_syntactic(emitter, line, column, "expected a colon after the parameter name");
            return None;
        }
        let ty: Ty = match sig[k + 2].as_ident() {
            Some(tyname) => {
                match Ty::try_get(tyname.as_slice(), session) {
                    Some(t) => t,
                    None => {
                        report_syntactic(emitter, line, column, "unknown parameter type");
                        return None;
                    },
                }
            },
            None => {
                report_syntactic(emitter, line, column, "expected a parameter type");
                return None;
            },
        };
        let ghost old_views = spec_arg_views(args@);
        args.push((name, ty));
        proof {
            assert(spec_arg_views(args@) =~= old_views.push((sshapes[k as int]->Ident_0, ty)));
            assert(old_views.push((sshapes[k as int]->Ident_0, ty)) + match spec_params_of(
                sshapes.skip(k as int + 3),
                table,
            ) {
                Some(rest) => rest,
                None => Seq::<(Seq<u8>, Ty)>::empty(),
            } =~= old_views + (seq![(sshapes[k as int]->Ident_0, ty)] + match spec_params_of(
                sshapes.skip(k as int + 3),
                table,
            ) {
                Some(rest) => rest,
                None => Seq::<(Seq<u8>, Ty)>::empty(),
            }));
        }
        k = k + 3;
    }
    proof {
        assert(sshapes.skip(m as int) =~= Seq::<RawTokenView>::empty());
        assert(spec_arg_views(args@) + Seq::<(Seq<u8>, Ty)>::empty() =~= spec_arg_views(args@));
    }
    Some((args, stop))
}


/// A matching closer found by the scan lies inside the run.
pub proof fn lemma_rparen_stop_in_bounds(ts: Seq<RawTokenView>, i: int, depth: int)
    requires
        0 <= i,
    ensures
        spec_rparen_stop(ts, i, depth) matches Some(s) ==> i <= s < ts.len(),
    decreases ts.len() - i,
{
    if i < ts.len() && !(ts[i] is RightParen && depth == 1) {
        let depth2 = if ts[i] is LeftParen {
            depth + 1
        } else if ts[i] is RightParen {
            depth - 1
        } else {
            depth
        };
        lemma_rparen_stop_in_bounds(ts, i + 1, depth2);
    }
}

/// The parameter types of a parameter list.
pub open spec fn spec_param_tys(ps: Seq<(Seq<u8>, Ty)>) -> Seq<Ty> {
    ps.map_values(|p: (Seq<u8>, Ty)| p.1)
}

/// The valid shape of a definition header, whitespace already dropped and
/// the keyword already recognized: the name, the parameter list in parens,
/// the arrow, a known return type, and then either nothing (the
/// declaration-only form) or the opening brace of a body.
pub open spec fn spec_defun_header_ok(ts: Seq<RawTokenView>, table: Seq<(usize, Seq<u8>)>) -> bool {
    &&& ts.len() >= 3
    &&& ts[1] is Ident
    &&& ts[2] is LeftParen
    &&& match spec_rparen_stop(ts, 3, 1) {
        Some(stop) => {
            &&& spec_params_of(spec_no_commas(ts.subrange(3, stop)), table) is Some
            &&& stop + 2 < ts.len()
            &&& ts[stop + 1] is Assign
            &&& ts[stop + 2] is Ident
            &&& spec_resolve_ty(ts[stop + 2]->Ident_0, table) is Some
            &&& (ts.len() == stop + 3 || ts[stop + 3] is LeftBrace)
        },
        None => false,
    }
}

/// The defined name of a valid definition header.
pub open spec fn spec_defun_name(ts: Seq<RawTokenView>) -> Seq<u8> {
    ts[1]->Ident_0
}

/// The parameters of a valid definition header.
pub open spec fn spec_defun_params(ts: Seq<RawTokenView>, table: Seq<(usize, Seq<u8>)>) -> Seq<
    (Seq<u8>, Ty),
> {
    match spec_rparen_stop(ts, 3, 1) {
        Some(stop) => match spec_params_of(spec_no_commas(ts.subrange(3, stop)), table) {
            Some(ps) => ps,
            None => Seq::<(Seq<u8>, Ty)>::empty(),
        },
        None => Seq::<(Seq<u8>, Ty)>::empty(),
    }
}

/// The return type of a valid definition header.
pub open spec fn spec_defun_ret(ts: Seq<RawTokenView>, table: Seq<(usize, Seq<u8>)>) -> Ty {
    match spec_rparen_stop(ts, 3, 1) {
        Some(stop) => match spec_resolve_ty(ts[stop + 2]->Ident_0, table) {
            Some(t) => t,
            None => Ty(TY_UNKNOWN),
        },
        None => Ty(TY_UNKNOWN),
    }
}

/// The token shapes of a definition's body: everything after the opening
/// brace, or nothing for the declaration-only form.
pub open spec fn spec_defun_body(ts: Seq<RawTokenView>) -> Seq<RawTokenView> {
    match spec_rparen_stop(ts, 3, 1) {
        Some(stop) => if ts.len() > stop + 3 {
            ts.subrange(stop + 4, ts.len() as int)
        } else {
            Seq::<RawTokenView>::empty()
        },
        None => Seq::<RawTokenView>::empty(),
    }
}

/// Whether a parameter list declares pairwise distinct names.
pub open spec fn spec_param_names_unique(ps: Seq<(Seq<u8>, Ty)>) -> bool {
    forall|i: int, j: int| 0 <= i < j < ps.len() ==> ps[i].0 != ps[j].0
}

/// The scope entries a parameter list registers: each name privately bound
/// to its type.
pub open spec fn spec_param_entries(ps: Seq<(Seq<u8>, Ty)>) -> Seq<(Seq<u8>, SymbolKindView)> {
    ps.map_values(|p: (Seq<u8>, Ty)| (p.0, SymbolKindView::Assignment(p.1, Vis::Private)))
}

/// The effect a definition run must have. On a valid header with a fresh
/// name the node comes back with the declared pieces, the signature is
/// hoisted into the enclosing scope, and one child scope is allocated; a
/// declaration-only form has an empty body; a body of one statement that
/// is not a binding parses in the child scope by the identifier-statement
/// rules, against the finished tree. A duplicate name is one semantic
/// diagnostic, a malformed header one syntactic diagnostic, and the
/// enclosing scope and scope count are then unchanged.
pub open spec fn spec_defun_post(
    ts: Seq<RawTokenView>,
    table: Seq<(usize, Seq<u8>)>,
    meta: DefunMeta,
    local0: Seq<(Seq<u8>, SymbolKindView)>,
    count0: int,
    tree1: ScopeTree,
    h: usize,
    errs0: Seq<crate::diag::DiagnosticView>,
    errs1: Seq<crate::diag::DiagnosticView>,
    r: Option<Expr>,
) -> bool {
    let name = spec_defun_name(ts);
    let params = spec_defun_params(ts, table);
    let body = spec_defun_body(ts);
    &&& (spec_defun_header_ok(ts, table) && !spec_has(local0, name) ==> (r matches Some(e) && (
    e matches Expr::Defun { meta: m, args, return_ty, ident, .. } && m == meta && ident@ == name
        && return_ty == spec_defun_ret(ts, table) && spec_arg_views(args@) == params)
        && tree1.local(h) == local0.push(
        (
            name,
            SymbolKindView::Function(
                spec_defun_ret(ts, table),
                spec_param_tys(params),
                spec_vis_of(meta.spec_flags()),
            ),
        ),
    ) && tree1.scope_count() == count0 + 1))
    &&& (spec_defun_header_ok(ts, table) && !spec_has(local0, name) && body.len() == 0
        ==> (r matches Some(e) && (e matches Expr::Defun { expressions, .. } && expressions@.len()
        == 0)))
    &&& (spec_defun_header_ok(ts, table) && !spec_has(local0, name) && spec_param_names_unique(
        params,
    ) && body.len() > 0 && (forall|j: int| 0 <= j < body.len() ==> !((#[trigger] body[j]) is Semi))
        && body[0] != RawTokenView::Ident(crate::ast::spec_kw_let()) ==> (r matches Some(e) && (
    e matches Expr::Defun { expressions, .. } && expressions@.len() <= 1
        && crate::binary::spec_ident_statement_post(
        body,
        tree1,
        count0 as usize,
        errs0,
        errs1,
        if expressions@.len() == 1 {
            Some(expressions@[0])
        } else {
            None
        },
    ))))
    &&& (spec_defun_header_ok(ts, table) && spec_has(local0, name) ==> r is None && tree1.local(h)
        == local0 && tree1.scope_count() == count0 && errs1.len() == errs0.len() + 1
        && errs1.last().kind == ErrorKind::Semantic)
    &&& (!spec_defun_header_ok(ts, table) ==> r is None && tree1.local(h) == local0
        && tree1.scope_count() == count0 && errs1.len() == errs0.len() + 1 && errs1.last().kind
        == ErrorKind::Syntactic)
}

/// Parses one definition run. On a valid header with a fresh name, a child
/// scope receives the parameters, the signature is hoisted into the
/// enclosing scope, the body statements are parsed in the child scope, and
/// the definition node comes back; body statements that fail leave their
/// diagnostic and are skipped. A duplicate name is one semantic
/// diagnostic, a malformed header one syntactic diagnostic, and the
/// enclosing scope is then left unchanged.
#[verifier::rlimit(60)]
pub fn defun_from_tokens(
    toks: &Vec<Token>,
    meta: DefunMeta,
    tree: &mut ScopeTree,
    h: usize,
    session: &Session,
    emitter: &mut Emitter,
) -> (r: Option<Expr>)
    requires
        old(tree).wf(),
        old(tree).valid_handle(h),
        old(tree).scope_count() < usize::MAX,
        toks@.len() <= u32::MAX,
    ensures
        final(tree).wf(),
        old(emitter)@.is_prefix_of(final(emitter)@),
        r is None ==> final(emitter)@.len() > old(emitter)@.len(),
        old(tree).scope_count() <= final(tree).scope_count() <= old(tree).scope_count() + 1,
        forall|h2: usize|
            old(tree).valid_handle(h2) ==> final(tree).valid_handle(h2) && final(tree).spec_parent_of(h2) == old(tree).spec_parent_of(h2) && final(tree).spec_kind_of(h2)
                == old(tree).spec_kind_of(h2),
        forall|h2: usize|
            old(tree).valid_handle(h2) && h2 != h && h2 != old(tree).scope_count() ==> final(tree).local(h2) == old(tree).local(h2),
        spec_defun_post(
            spec_shapes(toks@),
            session.table_view(),
            meta,
            old(tree).local(h),
            old(tree).scope_count(),
            *final(tree),
            h,
            old(emitter)@,
            final(emitter)@,
            r,
        ),
{
    let ghost ts = spec_shapes(toks@);
    let ghost table = session.table_view();
    let (line, column): (u32, u32) = if toks.len() > 0 {
        (toks[0].line, toks[0].column)
    } else {
        (0, 0)
    };

    if toks.len() < 3 {
        report_syntactic(emitter, line, column, "definition header is too short");
        return None;
    }
    let name: Vec<u8> = match toks[1].as_ident() {
        Some(id) => vstd::slice::slice_to_vec(id.as_slice()),
        None => {
            report_syntactic(emitter, line, column, "expected a name after the keyword");
            return None;
        },
    };
    if !matches!(toks[2].as_raw(), crate::ast::RawToken::LeftParen) {
        report_syntactic(emitter, line, column, "expected an opening paren after the name");
        return None;
    }
    let (args, stop): (Vec<Argument>, usize) = match parse_arguments(toks, 3, session, emitter) {
        Some(p) => p,
        None => {
            return None;
        },
    };
    proof {
        assert(spec_rparen_stop(ts, 3, 1) == Some(stop as int));
        lemma_rparen_stop_in_bounds(ts, 3, 1);
    }
    if toks.len() - stop <= 2 {
        report_syntactic(emitter, line, column, "definition header ends before its return type");
        return None;
    }
    if !matches!(toks[stop + 1].as_raw(), crate::ast::RawToken::Assign) {
        report_syntactic(emitter, line, column, "expected `=>` after the parameter list");
        return None;
    }
    let ret: Ty = match toks[stop + 2].as_ident() {
        Some(tyname) => {
            match Ty::try_get(tyname.as_slice(), session) {
                Some(t) => t,
                None => {
                    report_syntactic(emitter, line, column, "unknown return type");
                    return None;
                },
            }
        },
        None => {
            report_syntactic(emitter, line, column, "expected a return type");
            return None;
        },
    };
    let has_body = stop + 3 < toks.len();
    if has_body && !matches!(toks[stop + 3].as_raw(), crate::ast::RawToken::LeftBrace) {
        report_syntactic(emitter, line, column, "expected a body or a trailing semicolon");
        return None;
    }
    proof {
        assert(spec_defun_header_ok(ts, session.table_view()));
    }
    let ghost body = spec_defun_body(ts);
    proof {
        if has_body {
            assert(body =~= ts.subrange(stop as int + 4, ts.len() as int));
        } else {
            assert(body =~= Seq::<RawTokenView>::empty());
        }
    }
    let ghost params = spec_defun_params(ts, table);
    proof {
        assert(params == spec_arg_views(args@));
    }
    // The conditions under which the single-statement body is pinned
    // exactly: unique parameter names, a nonempty body without inner
    // semicolons, not opening with a binding.
    let ghost exact_body = spec_param_names_unique(params) && body.len() > 0 && (forall|j: int|
        0 <= j < body.len() ==> !((#[trigger] body[j]) is Semi)) && body[0]
        != RawTokenView::Ident(crate::ast::spec_kw_let());

    // Hoist the signature into the enclosing scope before the body is
    // parsed, so the function can call itself and be called by siblings.
    let mut tys: Vec<Ty> = Vec::new();
    let mut ti: usize = 0;
    proof {
        assert(tys@ =~= spec_param_tys(spec_arg_views(args@)).take(0));
    }
    while ti < args.len()
        invariant
            ti <= args@.len(),
            tys@ == spec_param_tys(spec_arg_views(args@)).take(ti as int),
        decreases args.len() - ti,
    {
        tys.push(args[ti].1);
        proof {
            assert(tys@ =~= spec_param_tys(spec_arg_views(args@)).take(ti as int + 1));
        }
        ti = ti + 1;
    }
    proof {
        assert(tys@ =~= spec_param_tys(spec_arg_views(args@)));
    }
    let vis = meta.to_vis();
    let fname = vstd::slice::slice_to_vec(name.as_slice());
    let hoisted = tree.enter_symbol_into_scope(h, fname, SymbolKind::Function(ret, tys, vis));
    if !hoisted {
        report_semantic(emitter, line, column, "redeclaration of a name in the same scope");
        return None;
    }

    // A fresh child scope receives the parameters; a repeated parameter
    // name is a recoverable warning and the first one stands.
    let ghost after_hoist_pre = *tree;
    let h2 = tree.new_child_context(h, ContextKind::Function);
    let ghost after_child = *tree;
    let mut pi: usize = 0;
    while pi < args.len()
        invariant
            tree.wf(),
            tree.valid_handle(h2),
            tree.valid_handle(h),
            h != h2,
            tree.scope_count() == after_child.scope_count(),
            forall|h3: usize|
                after_child.valid_handle(h3) && h3 != h2 ==> tree.valid_handle(h3) && tree.local(
                    h3,
                ) == after_child.local(h3),
            forall|h3: usize|
                after_child.valid_handle(h3) ==> tree.valid_handle(h3) && tree.spec_parent_of(h3)
                    == after_child.spec_parent_of(h3) && tree.spec_kind_of(h3)
                    == after_child.spec_kind_of(h3),
            old(emitter)@.is_prefix_of(emitter@),
            pi <= args@.len(),
            params == spec_arg_views(args@),
            spec_param_names_unique(params) ==> emitter@ == old(emitter)@ && tree.local(h2)
                == spec_param_entries(params).take(pi as int),
        decreases args.len() - pi,
    {
        let pname = vstd::slice::slice_to_vec(args[pi].0.as_slice());
        let pty = args[pi].1;
        let entered = tree.enter_symbol_into_scope(
            h2,
            pname,
            SymbolKind::Assignment(pty, Vis::Private),
        );
        proof {
            if spec_param_names_unique(params) {
                assert(pname@ == params[pi as int].0);
                assert(!spec_has(
                    spec_param_entries(params).take(pi as int),
                    pname@,
                )) by {
                    if spec_has(spec_param_entries(params).take(pi as int), pname@) {
                        let j = choose|j: int|
                            0 <= j < spec_param_entries(params).take(pi as int).len()
                                && spec_param_entries(params).take(pi as int)[j].0 == pname@;
                        assert(params[j].0 == params[pi as int].0);
                    }
                }
                assert(entered);
                assert(tree.local(h2) =~= spec_param_entries(params).take(pi as int + 1));
            }
        }
        if !entered {
            report_warning(emitter, line, column, "repeated parameter name");
        }
        pi = pi + 1;
    }
    proof {
        if spec_param_names_unique(params) {
            assert(spec_param_entries(params).take(args@.len() as int) =~= spec_param_entries(
                params,
            ));
        }
    }

    // The body: semicolon-separated statements parsed in the child scope.
    let ghost after_params = *tree;
    let ghost errs_at_body = emitter@;
    let mut expressions: Vec<Expr> = Vec::new();
    if has_body {
        let mut group: Vec<Token> = Vec::new();
        let mut bi = stop + 4;
        proof {
            if exact_body {
                assert(spec_shapes(group@) =~= body.take(0));
            }
        }
        while bi < toks.len()
            invariant
                stop + 4 <= bi <= toks@.len(),
                toks@.len() <= u32::MAX,
                tree.wf(),
                tree.valid_handle(h2),
                tree.scope_count() == after_params.scope_count(),
                forall|h3: usize|
                    after_params.valid_handle(h3) && h3 != h2 ==> tree.valid_handle(h3)
                        && tree.local(h3) == after_params.local(h3),
                forall|h3: usize|
                    after_params.valid_handle(h3) ==> tree.valid_handle(h3)
                        && tree.spec_parent_of(h3) == after_params.spec_parent_of(h3)
                        && tree.spec_kind_of(h3) == after_params.spec_kind_of(h3),
                old(emitter)@.is_prefix_of(emitter@),
                ts == spec_shapes(toks@),
                has_body,
                body == ts.subrange(stop as int + 4, ts.len() as int),
                exact_body ==> *tree == after_params && emitter@ == errs_at_body
                    && expressions@.len() == 0 && spec_shapes(group@) == body.take(
                    bi as int - stop as int - 4,
                ),
                body.len() == 0 ==> expressions@.len() == 0 && group@.len() == 0,
            decreases toks@.len() - bi,
        {
            proof {
                if exact_body {
                    assert(ts[bi as int] == body[bi as int - stop as int - 4]);
                    assert(!(ts[bi as int] is Semi));
                }
            }
            let is_semi = matches!(toks[bi].as_raw(), crate::ast::RawToken::Semi);
            if is_semi {
                if group.len() > 0 {
                    let starts_with_let = match group[0].as_ident() {
                        Some(id) => crate::util::eq3(
                            id.as_slice(),
                            'l' as u8,
                            'e' as u8,
                            't' as u8,
                        ),
                        None => false,
                    };
                    let parsed: Option<Expr> = if starts_with_let {
                        parse_assignment_tokens(
                            &group,
                            AssignmentMeta(0),
                            tree,
                            h2,
                            session,
                            emitter,
                        )
                    } else {
                        resolve_ident_statement(&group, tree, h2, emitter)
                    };
                    match parsed {
                        Some(e) => {
                            expressions.push(e);
                        },
                        None => {
                            // The diagnostic stands; parsing resumes with
                            // the next statement.
                        },
                    }
                    group = Vec::new();
                }
            } else {
                let ghost old_shapes = spec_shapes(group@);
                group.push(toks[bi].duplicate());
                proof {
                    assert(spec_shapes(group@) =~= old_shapes.push(ts[bi as int]));
                    if exact_body {
                        assert(spec_shapes(group@) =~= body.take(bi as int + 1 - stop as int - 4));
                    }
                }
            }
            bi = bi + 1;
        }
        proof {
            if exact_body {
                assert(bi == toks@.len());
                assert(body.len() == toks@.len() - stop - 4);
                assert(spec_shapes(group@) =~= body);
            }
        }
        if group.len() > 0 {
            let starts_with_let = match group[0].as_ident() {
                Some(id) => crate::util::eq3(id.as_slice(), 'l' as u8, 'e' as u8, 't' as u8),
                None => false,
            };
            proof {
                if exact_body {
                    assert(!starts_with_let);
                }
            }
            let parsed: Option<Expr> = if starts_with_let {
                parse_assignment_tokens(&group, AssignmentMeta(0), tree, h2, session, emitter)
            } else {
                resolve_ident_statement(&group, tree, h2, emitter)
            };
            match parsed {
                Some(e) => {
                    expressions.push(e);
                },
                None => {},
            }
            proof {
                if exact_body {
                    assert(expressions@.len() <= 1);
                    assert(crate::binary::spec_ident_statement_post(
                        body,
                        *tree,
                        h2,
                        errs_at_body,
                        emitter@,
                        if expressions@.len() == 1 {
                            Some(expressions@[0])
                        } else {
                            None
                        },
                    ));
                }
            }
        }
    }
    Some(Expr::Defun { meta, args, expressions, return_ty: ret, ident: name })
}

} // verus!
