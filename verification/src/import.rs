//! Parsing of module imports: `import ROOT::PATH::...;`. The run is a root
//! name followed by any number of path-separated names; anything else is a
//! syntactic diagnostic.

use vstd::prelude::*;

use crate::ast::{spec_kw_import, Expr, ImportMeta, RawTokenView, Token};
use crate::diag::{report_syntactic, Emitter, ErrorKind, Level};
use crate::lexer::spec_shapes;

verus! {

/// The valid shape of an import statement, whitespace already dropped: the
/// keyword, a root name, and then path-separator and name pairs.
pub open spec fn spec_import_shape(ts: Seq<RawTokenView>) -> bool {
    &&& ts.len() >= 2
    &&& ts.len() % 2 == 0
    &&& ts[0] == RawTokenView::Ident(spec_kw_import())
    &&& ts[1] is Ident
    &&& forall|k: int|
        1 <= k < ts.len() / 2 ==> (#[trigger] ts[2 * k]) is Path && ts[2 * k + 1] is Ident
}

/// The root name of a valid import.
pub open spec fn spec_import_root(ts: Seq<RawTokenView>) -> Seq<u8> {
    ts[1]->Ident_0
}

/// The names after the root of a valid import, in order.
pub open spec fn spec_import_rest(ts: Seq<RawTokenView>) -> Seq<Seq<u8>> {
    Seq::new((ts.len() / 2 - 1) as nat, |k: int| ts[2 * k + 3]->Ident_0)
}

/// The effect an import statement must have: on the valid shape the node
/// carries the root and the path parts in order; otherwise one syntactic
/// diagnostic and no node.
pub open spec fn spec_import_post(
    ts: Seq<RawTokenView>,
    meta: ImportMeta,
    errs0: Seq<crate::diag::DiagnosticView>,
    errs1: Seq<crate::diag::DiagnosticView>,
    r: Option<Expr>,
) -> bool {
    &&& (spec_import_shape(ts) ==> (r matches Some(e) && (e matches Expr::Import { meta: m, root, rest }
        && m == meta && root@ == spec_import_root(ts) && rest@.map_values(|v: Vec<u8>| v@)
        == spec_import_rest(ts))) && errs1 == errs0)
    &&& (!spec_import_shape(ts) ==> r is None && errs1.len() == errs0.len() + 1
        && errs1.last().kind == ErrorKind::Syntactic && errs1.last().level == Level::HardError)
}

/// Validates one whitespace-free import run positionally.
pub fn parse_import_tokens(toks: &Vec<Token>, meta: ImportMeta, emitter: &mut Emitter) -> (r:
    Option<Expr>)
    ensures
        old(emitter)@.is_prefix_of(final(emitter)@),
        r is None ==> final(emitter)@.len() > old(emitter)@.len(),
        spec_import_post(spec_shapes(toks@), meta, old(emitter)@, final(emitter)@, r),
{
    let ghost ts = spec_shapes(toks@);
    let (line, column): (u32, u32) = if toks.len() > 0 {
        (toks[0].line, toks[0].column)
    } else {
        (0, 0)
    };
    if toks.len() < 2 || toks.len() % 2 != 0 {
        proof {
            assert(!spec_import_shape(ts));
        }
        report_syntactic(emitter, line, column, "import statement has the wrong shape");
        return None;
    }
    let kw_ok = match toks[0].as_ident() {
        Some(id) => crate::util::eq6(
            id.as_slice(),
            'i' as u8,
            'm' as u8,
            'p' as u8,
            'o' as u8,
            'r' as u8,
            't' as u8,
        ),
        None => false,
    };
    if !kw_ok {
        proof {
            assert(ts[0] != RawTokenView::Ident(spec_kw_import()));
            assert(!spec_import_shape(ts));
        }
        report_syntactic(emitter, line, column, "expected the keyword `import`");
        return None;
    }
    let root: Vec<u8> = match toks[1].as_ident() {
        Some(id) => vstd::slice::slice_to_vec(id.as_slice()),
        None => {
            proof {
                assert(!spec_import_shape(ts));
            }
            report_syntactic(emitter, line, column, "expected a root name after `import`");
            return None;
        },
    };
    let pairs = toks.len() / 2;
    let mut rest: Vec<Vec<u8>> = Vec::new();
    let mut k: usize = 1;
    proof {
        assert(rest@.map_values(|v: Vec<u8>| v@) =~= Seq::<Seq<u8>>::empty());
    }
    while k < pairs
        invariant
            1 <= k <= pairs,
            pairs == toks@.len() / 2,
            toks@.len() % 2 == 0,
            toks@.len() >= 2,
            ts == spec_shapes(toks@),
            rest@.len() == k - 1,
            emitter@ == old(emitter)@,
            forall|j: int|
                1 <= j < k ==> (#[trigger] ts[2 * j]) is Path && ts[2 * j + 1] is Ident,
            forall|j: int|
                0 <= j < k - 1 ==> (#[trigger] rest@[j])@ == ts[2 * j + 3]->Ident_0,
        decreases pairs - k,
    {
        if !matches!(toks[2 * k].as_raw(), crate::ast::RawToken::Path) {
            proof {
                assert(!spec_import_shape(ts)) by {
                    if spec_import_shape(ts) {
                        assert(ts[2 * (k as int)] is Path);
                    }
                }
            }
            report_syntactic(emitter, line, column, "expected `::` between import names");
            return None;
        }
        let part: Vec<u8> = match toks[2 * k + 1].as_ident() {
            Some(id) => vstd::slice::slice_to_vec(id.as_slice()),
            None => {
                proof {
                    assert(!spec_import_shape(ts)) by {
                        if spec_import_shape(ts) {
                            assert(ts[2 * (k as int)] is Path);
                        }
                    }
                }
                report_syntactic(emitter, line, column, "expected a name after `::`");
                return None;
            },
        };
        rest.push(part);
        k = k + 1;
    }
    proof {
        assert(spec_import_shape(ts));
        assert(rest@.map_values(|v: Vec<u8>| v@) =~= spec_import_rest(ts));
        assert(root@ == spec_import_root(ts));
    }
    Some(Expr::Import { meta, root, rest })
}

} // verus!
