//! Packages: named bundles of symbols exported from a global scope.

use vstd::prelude::*;

use crate::scope::{Context, GlobalContext, SymbolKind, SymbolKindView};

verus! {

/// Visibility of a declared name, derived from metadata flag bits. A name
/// carrying both the public and the private bit is package-scoped public,
/// an intentional combination rather than an error.
#[derive(Debug, Clone, Copy, PartialEq, Eq, Structural)]
pub enum Vis {
    Public,
    Private,
    FilePub,
    PackPub,
}

/// Whether a package came from this compilation or from outside it.
#[derive(Debug, Clone, Copy, PartialEq, Eq, Structural)]
pub enum PackageKind {
    Internal,
    External,
}

/// One exported symbol: its name, its classification, and its visibility.
#[derive(Debug)]
pub struct Symbol {
    pub ident: Vec<u8>,
    pub symbol_kind: SymbolKind,
    pub vis: Vis,
}

/// A named bundle of symbols taken from a global scope.
#[derive(Debug)]
pub struct Package {
    name: Vec<u8>,
    fully_qualified_name: Vec<u8>,
    path: Vec<u8>,
    symbols: Vec<Symbol>,
    vis: Vis,
    kind: PackageKind,
}

impl Package {
    /// The symbols this package exports, as name, classification and
    /// visibility views.
    pub closed spec fn symbols_view(&self) -> Seq<(Seq<u8>, SymbolKindView, Vis)> {
        self.symbols@.map_values(|s: Symbol| (s.ident@, s.symbol_kind@, s.vis))
    }

    /// The package's name.
    pub closed spec fn name_view(&self) -> Seq<u8> {
        self.name@
    }

    /// Bundles every symbol of a global scope into a package: one exported
    /// record per scope entry, in scope order, each carrying the
    /// declaration's own visibility.
    pub fn from_name_and_ctx(
        name: Vec<u8>,
        path: Vec<u8>,
        fully_qualified_name: Vec<u8>,
        vis: Vis,
        kind: PackageKind,
        ctx: &GlobalContext,
    ) -> (r: Package)
        ensures
            r.name_view() == name@,
            r.symbols_view().len() == ctx.symbols_view().len(),
            forall|i: int|
                0 <= i < ctx.symbols_view().len() ==> (#[trigger] r.symbols_view()[i]) == (
                ctx.symbols_view()[i].0,
                ctx.symbols_view()[i].1,
                ctx.symbols_view()[i].1.spec_entry_vis(),
            ),
    {
        let map = ctx.global_symbols();
        let n = map.len();
        let mut symbols: Vec<Symbol> = Vec::new();
        let mut i: usize = 0;
        while i < n
            invariant
                i <= n,
                n == ctx.symbols_view().len(),
                symbols@.len() == i,
                forall|j: int|
                    0 <= j < i ==> (#[trigger] symbols@[j]).ident@ == ctx.symbols_view()[j].0
                        && symbols@[j].symbol_kind@ == ctx.symbols_view()[j].1 && symbols@[j].vis
                        == ctx.symbols_view()[j].1.spec_entry_vis(),
            decreases n - i,
        {
            let entry = map.entry_at(i);
            let ident = vstd::slice::slice_to_vec(entry.0.as_slice());
            let symbol_kind = entry.1.duplicate();
            let entry_vis = symbol_kind.vis();
            symbols.push(Symbol { ident, symbol_kind, vis: entry_vis });
            i = i + 1;
        }
        Package { name, fully_qualified_name, path, symbols, vis, kind }
    }

    pub fn name(&self) -> (r: &Vec<u8>)
        ensures
            r@ == self.name_view(),
    {
        &self.name
    }
}

/// The packages visible to one compilation, by name.
pub struct PackageLoader {
    packages_in_scope: Vec<(Vec<u8>, Package)>,
}

impl PackageLoader {
    /// The names of the packages in scope, in insertion order.
    pub closed spec fn names_view(&self) -> Seq<Seq<u8>> {
        self.packages_in_scope@.map_values(|e: (Vec<u8>, Package)| e.0@)
    }

    pub fn init() -> (r: PackageLoader)
        ensures
            r.names_view() == Seq::<Seq<u8>>::empty(),
    {
        let r = PackageLoader { packages_in_scope: Vec::new() };
        proof {
            assert(r.names_view() =~= Seq::<Seq<u8>>::empty());
        }
        r
    }

    /// Remembers a package under its own name.
    pub fn add_package_to_scope(&mut self, package: Package)
        ensures
            final(self).names_view() == old(self).names_view().push(package.name_view()),
    {
        let ghost oldv = self.names_view();
        let ghost pname = package.name_view();
        let name = vstd::slice::slice_to_vec(package.name().as_slice());
        self.packages_in_scope.push((name, package));
        proof {
            assert(self.names_view() =~= oldv.push(pname));
        }
    }

    /// Module linking is a declared non-goal: loading package symbols into
    /// a scope is a stub that changes nothing.
    pub fn add_symbols_to_context(&mut self, ctx: &mut GlobalContext)
        ensures
            final(self).names_view() == old(self).names_view(),
            final(ctx).symbols_view() == old(ctx).symbols_view(),
    {
    }
}

} // verus!
