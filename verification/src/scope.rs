//! The scope tree: a hierarchy of symbol maps with chained lookup. A child
//! scope resolves names locally first and then through its ancestors; writes
//! normally go to the local map, with an explicit parent-delegating write path
//! used to hoist a function's own signature into its enclosing scope.

use vstd::prelude::*;

use crate::ast::Ty;
use crate::pack::Vis;

verus! {

/// What kind of declaration a name stands for, carrying enough information
/// to validate later uses without re-scanning source.
#[derive(Debug)]
pub enum SymbolKind {
    Assignment(Ty, Vis),
    Alias(Vis),
    Function(Ty, Vec<Ty>, Vis),
}

/// The mathematical value of a [`SymbolKind`].
pub enum SymbolKindView {
    Assignment(Ty, Vis),
    Alias(Vis),
    Function(Ty, Seq<Ty>, Vis),
}

impl SymbolKindView {
    /// The visibility a classification carries.
    pub open spec fn spec_entry_vis(self) -> Vis {
        match self {
            SymbolKindView::Assignment(_, v) => v,
            SymbolKindView::Alias(v) => v,
            SymbolKindView::Function(_, _, v) => v,
        }
    }
}

impl View for SymbolKind {
    type V = SymbolKindView;

    open spec fn view(&self) -> SymbolKindView {
        match self {
            SymbolKind::Assignment(t, v) => SymbolKindView::Assignment(*t, *v),
            SymbolKind::Alias(v) => SymbolKindView::Alias(*v),
            SymbolKind::Function(t, ts, v) => SymbolKindView::Function(*t, ts@, *v),
        }
    }
}

impl SymbolKind {
    pub fn vis(&self) -> (v: Vis)
        ensures
            v == self.spec_vis(),
    {
        match self {
            SymbolKind::Assignment(_, v) => *v,
            SymbolKind::Alias(v) => *v,
            SymbolKind::Function(_, _, v) => *v,
        }
    }

    pub open spec fn spec_vis(&self) -> Vis {
        self@.spec_entry_vis()
    }

    /// A copy of this classification with the same view.
    pub fn duplicate(&self) -> (r: SymbolKind)
        ensures
            r@ == self@,
    {
        match self {
            SymbolKind::Assignment(t, v) => SymbolKind::Assignment(*t, *v),
            SymbolKind::Alias(v) => SymbolKind::Alias(*v),
            SymbolKind::Function(t, ts, v) => SymbolKind::Function(
                *t,
                vstd::slice::slice_to_vec(ts.as_slice()),
                *v,
            ),
        }
    }
}

/// The syntactic region a scope belongs to, used to decide what a bare
/// binary expression means there.
#[derive(Debug, Clone, Copy, PartialEq, Eq, Structural)]
pub enum ContextKind {
    Global,
    Object,
    Composition,
    Function,
    Block,
}

/// Whether a sequence of named entries has pairwise distinct names.
pub open spec fn spec_unique_names(s: Seq<(Seq<u8>, SymbolKindView)>) -> bool {
    forall|i: int, j: int| 0 <= i < j < s.len() ==> s[i].0 != s[j].0
}

/// Whether some entry carries the given name.
pub open spec fn spec_has(s: Seq<(Seq<u8>, SymbolKindView)>, n: Seq<u8>) -> bool {
    exists|j: int| 0 <= j < s.len() && s[j].0 == n
}

/// The entry carrying the given name (meaningful when names are unique and
/// the name is present).
pub open spec fn spec_get(s: Seq<(Seq<u8>, SymbolKindView)>, n: Seq<u8>) -> SymbolKindView {
    s[choose|j: int| 0 <= j < s.len() && s[j].0 == n].1
}

/// A name-to-symbol map with insert-if-absent semantics: an insertion into an
/// occupied slot is rejected, never overwritten.
pub struct SymbolMap {
    entries: Vec<(Vec<u8>, SymbolKind)>,
}

impl View for SymbolMap {
    type V = Seq<(Seq<u8>, SymbolKindView)>;

    closed spec fn view(&self) -> Seq<(Seq<u8>, SymbolKindView)> {
        self.entries@.map_values(|e: (Vec<u8>, SymbolKind)| (e.0@, e.1@))
    }
}

impl SymbolMap {
    /// The map's names stay pairwise distinct.
    pub open spec fn wf(&self) -> bool {
        spec_unique_names(self@)
    }

    pub fn new() -> (r: SymbolMap)
        ensures
            r@ == Seq::<(Seq<u8>, SymbolKindView)>::empty(),
            r.wf(),
    {
        let r = SymbolMap { entries: Vec::new() };
        proof {
            assert(r@ =~= Seq::<(Seq<u8>, SymbolKindView)>::empty());
        }
        r
    }

    pub fn len(&self) -> (n: usize)
        ensures
            n == self@.len(),
    {
        self.entries.len()
    }

    /// Read access to the entry at a position, for walking the whole map.
    pub fn entry_at(&self, i: usize) -> (r: &(Vec<u8>, SymbolKind))
        requires
            i < self@.len(),
        ensures
            (r.0@, r.1@) == self@[i as int],
    {
        &self.entries[i]
    }

    pub fn contains(&self, name: &[u8]) -> (r: bool)
        ensures
            r == spec_has(self@, name@),
    {
        let n = self.entries.len();
        let mut i: usize = 0;
        while i < n
            invariant
                i <= n,
                n == self@.len(),
                forall|j: int| 0 <= j < i ==> self@[j].0 != name@,
            decreases n - i,
        {
            if crate::util::eq_bytes(self.entries[i].0.as_slice(), name) {
                proof {
                    assert(self@[i as int].0 == name@);
                }
                return true;
            }
            i = i + 1;
        }
        false
    }

    pub fn get(&self, name: &[u8]) -> (r: Option<&SymbolKind>)
        requires
            self.wf(),
        ensures
            r is Some <==> spec_has(self@, name@),
            r matches Some(k) ==> spec_has(self@, name@) && k@ == spec_get(self@, name@),
    {
        let n = self.entries.len();
        let mut i: usize = 0;
        while i < n
            invariant
                i <= n,
                n == self@.len(),
                self.wf(),
                forall|j: int| 0 <= j < i ==> self@[j].0 != name@,
            decreases n - i,
        {
            if crate::util::eq_bytes(self.entries[i].0.as_slice(), name) {
                proof {
                    assert(self@[i as int].0 == name@);
                    let j = choose|j: int| 0 <= j < self@.len() && self@[j].0 == name@;
                    assert(j == i as int);
                }
                return Some(&self.entries[i].1);
            }
            i = i + 1;
        }
        None
    }

    /// Inserts only if the name is absent; returns whether the insertion
    /// happened. A collision leaves the map unchanged.
    pub fn insert_if_absent(&mut self, name: Vec<u8>, kind: SymbolKind) -> (r: bool)
        requires
            old(self).wf(),
        ensures
            final(self).wf(),
            r == !spec_has(old(self)@, name@),
            r ==> final(self)@ == old(self)@.push((name@, kind@)),
            !r ==> final(self)@ == old(self)@,
            spec_has(final(self)@, name@),
    {
        if self.contains(name.as_slice()) {
            return false;
        }
        let ghost old_view = self@;
        self.entries.push((name, kind));
        proof {
            assert(self@ =~= old_view.push((name@, kind@)));
            assert(self@[old_view.len() as int].0 == name@);
            assert forall|i: int, j: int| 0 <= i < j < self@.len() implies self@[i].0
                != self@[j].0 by {
                if j == old_view.len() as int {
                    assert(!spec_has(old_view, name@));
                    assert(self@[i] == old_view[i]);
                }
            }
        }
        true
    }
}

/// The capability shared by the global scope and nested scopes: a local
/// symbol map with insert-if-absent writes.
pub trait Context: Sized {
    /// The entries of the local symbol map.
    spec fn symbols_view(&self) -> Seq<(Seq<u8>, SymbolKindView)>;

    /// The local map keeps pairwise distinct names.
    spec fn ctx_wf(&self) -> bool;

    /// The syntactic region this scope belongs to.
    spec fn spec_kind(&self) -> ContextKind;

    fn symbol_is_in_scope(&self, sym: &[u8]) -> (r: bool)
        ensures
            r == spec_has(self.symbols_view(), sym@),
    ;

    fn kind_for_symbol(&self, sym: &[u8]) -> (r: Option<SymbolKind>)
        requires
            self.ctx_wf(),
        ensures
            r is Some <==> spec_has(self.symbols_view(), sym@),
            r matches Some(k) ==> k@ == spec_get(self.symbols_view(), sym@),
    ;

    fn enter_symbol_into_scope(&mut self, sym: Vec<u8>, kind: SymbolKind) -> (r: bool)
        requires
            old(self).ctx_wf(),
        ensures
            final(self).ctx_wf(),
            final(self).spec_kind() == old(self).spec_kind(),
            r == !spec_has(old(self).symbols_view(), sym@),
            r ==> final(self).symbols_view() == old(self).symbols_view().push((sym@, kind@)),
            !r ==> final(self).symbols_view() == old(self).symbols_view(),
    ;

    fn kind(&self) -> (k: ContextKind)
        ensures
            k == self.spec_kind(),
    ;
}

/// The root scope of one compilation unit; it has no parent.
pub struct GlobalContext {
    global_symbols: SymbolMap,
}

impl GlobalContext {
    pub fn init() -> (r: GlobalContext)
        ensures
            r.symbols_view() == Seq::<(Seq<u8>, SymbolKindView)>::empty(),
            r.ctx_wf(),
    {
        GlobalContext { global_symbols: SymbolMap::new() }
    }

    pub fn global_symbols(&self) -> (r: &SymbolMap)
        ensures
            r@ == self.symbols_view(),
    {
        &self.global_symbols
    }
}

impl Context for GlobalContext {
    closed spec fn symbols_view(&self) -> Seq<(Seq<u8>, SymbolKindView)> {
        self.global_symbols@
    }

    closed spec fn ctx_wf(&self) -> bool {
        self.global_symbols.wf()
    }

    closed spec fn spec_kind(&self) -> ContextKind {
        ContextKind::Global
    }

    fn symbol_is_in_scope(&self, sym: &[u8]) -> (r: bool) {
        self.global_symbols.contains(sym)
    }

    fn kind_for_symbol(&self, sym: &[u8]) -> (r: Option<SymbolKind>) {
        match self.global_symbols.get(sym) {
            Some(k) => Some(k.duplicate()),
            None => None,
        }
    }

    fn enter_symbol_into_scope(&mut self, sym: Vec<u8>, kind: SymbolKind) -> (r: bool) {
        self.global_symbols.insert_if_absent(sym, kind)
    }

    fn kind(&self) -> (k: ContextKind) {
        ContextKind::Global
    }
}

/// A nested scope: a local symbol map plus the handle of its parent scope in
/// the owning [`ScopeTree`].
pub struct SubContext {
    symbols_in_context: SymbolMap,
    parent_context: usize,
    kind: ContextKind,
}

impl SubContext {
    /// A fresh, empty scope under the given parent handle.
    pub fn init(parent: usize, kind: ContextKind) -> (r: SubContext)
        ensures
            r.symbols_view() == Seq::<(Seq<u8>, SymbolKindView)>::empty(),
            r.ctx_wf(),
            r.spec_parent() == parent,
            r.spec_kind() == kind,
    {
        SubContext { symbols_in_context: SymbolMap::new(), parent_context: parent, kind }
    }

    /// The handle of the parent scope.
    pub closed spec fn spec_parent(&self) -> usize {
        self.parent_context
    }

    pub fn parent(&self) -> (p: usize)
        ensures
            p == self.spec_parent(),
    {
        self.parent_context
    }

    /// Insert-if-absent into this scope's own map, leaving its parent link
    /// and kind untouched.
    pub fn insert_local(&mut self, sym: Vec<u8>, kind: SymbolKind) -> (r: bool)
        requires
            old(self).ctx_wf(),
        ensures
            final(self).ctx_wf(),
            final(self).spec_kind() == old(self).spec_kind(),
            final(self).spec_parent() == old(self).spec_parent(),
            r == !spec_has(old(self).symbols_view(), sym@),
            r ==> final(self).symbols_view() == old(self).symbols_view().push((sym@, kind@)),
            !r ==> final(self).symbols_view() == old(self).symbols_view(),
    {
        self.symbols_in_context.insert_if_absent(sym, kind)
    }
}

impl Context for SubContext {
    closed spec fn symbols_view(&self) -> Seq<(Seq<u8>, SymbolKindView)> {
        self.symbols_in_context@
    }

    closed spec fn ctx_wf(&self) -> bool {
        self.symbols_in_context.wf()
    }

    closed spec fn spec_kind(&self) -> ContextKind {
        self.kind
    }

    fn symbol_is_in_scope(&self, sym: &[u8]) -> (r: bool) {
        self.symbols_in_context.contains(sym)
    }

    fn kind_for_symbol(&self, sym: &[u8]) -> (r: Option<SymbolKind>) {
        match self.symbols_in_context.get(sym) {
            Some(k) => Some(k.duplicate()),
            None => None,
        }
    }

    fn enter_symbol_into_scope(&mut self, sym: Vec<u8>, kind: SymbolKind) -> (r: bool) {
        self.symbols_in_context.insert_if_absent(sym, kind)
    }

    fn kind(&self) -> (k: ContextKind) {
        self.kind
    }
}

/// The tree of scopes of one compilation unit, held as an arena: handle 0 is
/// the global scope, handle `k > 0` is the nested scope at position `k - 1`.
/// Each nested scope was created under a parent with a smaller handle, so
/// every parent chain reaches the global scope.
pub struct ScopeTree {
    global: GlobalContext,
    subs: Vec<SubContext>,
}

impl ScopeTree {
    /// The number of scopes in the tree, the global one included.
    pub closed spec fn scope_count(&self) -> int {
        self.subs@.len() as int + 1
    }

    /// Handles of existing scopes: 0 for the global scope, `k` for the
    /// nested scope at position `k - 1`.
    pub open spec fn valid_handle(&self, h: usize) -> bool {
        (h as int) < self.scope_count()
    }

    /// The local symbol entries of the scope behind a handle.
    pub closed spec fn local(&self, h: usize) -> Seq<(Seq<u8>, SymbolKindView)> {
        if h == 0 {
            self.global.symbols_view()
        } else {
            self.subs@[h - 1].symbols_view()
        }
    }

    /// The parent handle of a nested scope; the global scope is its own
    /// parent.
    pub closed spec fn spec_parent_of(&self, h: usize) -> usize {
        if h == 0 {
            0
        } else {
            self.subs@[h - 1].spec_parent()
        }
    }

    /// The syntactic region of the scope behind a handle.
    pub closed spec fn spec_kind_of(&self, h: usize) -> ContextKind {
        if h == 0 {
            ContextKind::Global
        } else {
            self.subs@[h - 1].spec_kind()
        }
    }

    /// Every scope's map keeps unique names, and every nested scope points
    /// to a parent with a strictly smaller handle.
    pub closed spec fn wf(&self) -> bool {
        &&& self.global.ctx_wf()
        &&& forall|i: int|
            0 <= i < self.subs@.len() ==> (#[trigger] self.subs@[i]).ctx_wf()
                && self.subs@[i].spec_parent() <= i
    }

    /// Chained lookup: the nearest declaration of a name, walking from the
    /// scope behind `h` through its ancestors.
    pub open spec fn resolve(&self, h: usize, n: Seq<u8>) -> Option<SymbolKindView>
        decreases h,
        when self.wf() && self.valid_handle(h)
    {
        if spec_has(self.local(h), n) {
            Some(spec_get(self.local(h), n))
        } else if h == 0 {
            None
        } else {
            self.resolve(self.spec_parent_of(h), n)
        }
    }

    pub fn init() -> (r: ScopeTree)
        ensures
            r.wf(),
            r.valid_handle(0),
            r.local(0) == Seq::<(Seq<u8>, SymbolKindView)>::empty(),
            r.scope_count() == 1,
    {
        ScopeTree { global: GlobalContext::init(), subs: Vec::new() }
    }

    /// Allocates a fresh, empty child scope of the scope behind `parent` and
    /// returns its handle.
    pub fn new_child_context(&mut self, parent: usize, kind: ContextKind) -> (h: usize)
        requires
            old(self).wf(),
            old(self).valid_handle(parent),
            old(self).scope_count() <= usize::MAX,
        ensures
            final(self).wf(),
            h == old(self).scope_count(),
            final(self).scope_count() == old(self).scope_count() + 1,
            final(self).valid_handle(h),
            final(self).local(h) == Seq::<(Seq<u8>, SymbolKindView)>::empty(),
            final(self).spec_parent_of(h) == parent,
            final(self).spec_kind_of(h) == kind,
            forall|h2: usize|
                old(self).valid_handle(h2) ==> final(self).valid_handle(h2) && final(self).local(
                    h2,
                ) == old(self).local(h2) && final(self).spec_parent_of(h2) == old(
                    self,
                ).spec_parent_of(h2) && final(self).spec_kind_of(h2) == old(self).spec_kind_of(h2),
    {
        let h = self.subs.len() + 1;
        self.subs.push(SubContext::init(parent, kind));
        h
    }

    /// Local-or-ancestor membership test.
    pub fn symbol_is_in_scope(&self, h: usize, sym: &[u8]) -> (r: bool)
        requires
            self.wf(),
            self.valid_handle(h),
        ensures
            r == (self.resolve(h, sym@) is Some),
    {
        let mut cur = h;
        loop
            invariant
                self.wf(),
                self.valid_handle(cur),
                self.resolve(h, sym@) == self.resolve(cur, sym@),
            decreases cur,
        {
            let found = if cur == 0 {
                self.global.symbol_is_in_scope(sym)
            } else {
                self.subs[cur - 1].symbol_is_in_scope(sym)
            };
            if found {
                return true;
            }
            if cur == 0 {
                return false;
            }
            cur = self.subs[cur - 1].parent();
        }
    }

    /// Chained lookup, local map first, then the ancestors.
    pub fn kind_for_symbol(&self, h: usize, sym: &[u8]) -> (r: Option<SymbolKind>)
        requires
            self.wf(),
            self.valid_handle(h),
        ensures
            match r {
                Some(k) => self.resolve(h, sym@) == Some(k@),
                None => self.resolve(h, sym@) is None,
            },
    {
        let mut cur = h;
        loop
            invariant
                self.wf(),
                self.valid_handle(cur),
                self.resolve(h, sym@) == self.resolve(cur, sym@),
            decreases cur,
        {
            let found = if cur == 0 {
                self.global.kind_for_symbol(sym)
            } else {
                self.subs[cur - 1].kind_for_symbol(sym)
            };
            match found {
                Some(k) => {
                    return Some(k);
                },
                None => {},
            }
            if cur == 0 {
                return None;
            }
            cur = self.subs[cur - 1].parent();
        }
    }

    /// Inserts into the local map of the scope behind `h` only if the name
    /// is absent there; a collision leaves every map unchanged and returns
    /// false.
    pub fn enter_symbol_into_scope(&mut self, h: usize, sym: Vec<u8>, kind: SymbolKind) -> (r:
        bool)
        requires
            old(self).wf(),
            old(self).valid_handle(h),
        ensures
            final(self).wf(),
            final(self).scope_count() == old(self).scope_count(),
            r == !spec_has(old(self).local(h), sym@),
            r ==> final(self).local(h) == old(self).local(h).push((sym@, kind@)),
            !r ==> final(self).local(h) == old(self).local(h),
            forall|h2: usize|
                old(self).valid_handle(h2) && h2 != h ==> final(self).local(h2) == old(self).local(h2),
            forall|h2: usize|
                old(self).valid_handle(h2) ==> final(self).spec_parent_of(h2) == old(self).spec_parent_of(h2) && final(self).spec_kind_of(h2) == old(self).spec_kind_of(h2),
    {
        if h == 0 {
            self.global.enter_symbol_into_scope(sym, kind)
        } else {
            let sub = &mut self.subs[h - 1];
            sub.insert_local(sym, kind)
        }
    }

    /// Delegates the insert to the parent scope, so that a declaration made
    /// while a child scope is open becomes visible in the enclosing scope.
    pub fn enter_symbol_into_parent_scope(&mut self, h: usize, sym: Vec<u8>, kind: SymbolKind) -> (
        r: bool)
        requires
            old(self).wf(),
            old(self).valid_handle(h),
        ensures
            final(self).wf(),
            final(self).scope_count() == old(self).scope_count(),
            r == !spec_has(old(self).local(old(self).spec_parent_of(h)), sym@),
            r ==> final(self).local(old(self).spec_parent_of(h)) == old(self).local(
                old(self).spec_parent_of(h),
            ).push((sym@, kind@)),
            !r ==> final(self).local(old(self).spec_parent_of(h)) == old(self).local(
                old(self).spec_parent_of(h),
            ),
            forall|h2: usize|
                old(self).valid_handle(h2) && h2 != old(self).spec_parent_of(h) ==> final(self).local(h2) == old(self).local(h2),
            forall|h2: usize|
                old(self).valid_handle(h2) ==> final(self).spec_parent_of(h2) == old(self).spec_parent_of(h2) && final(self).spec_kind_of(h2) == old(self).spec_kind_of(h2),
    {
        let p = if h == 0 {
            0
        } else {
            self.subs[h - 1].parent()
        };
        self.enter_symbol_into_scope(p, sym, kind)
    }

    pub fn context_kind(&self, h: usize) -> (k: ContextKind)
        requires
            self.wf(),
            self.valid_handle(h),
        ensures
            k == self.spec_kind_of(h),
    {
        if h == 0 {
            ContextKind::Global
        } else {
            self.subs[h - 1].kind()
        }
    }

    pub fn parent_context_kind(&self, h: usize) -> (k: ContextKind)
        requires
            self.wf(),
            self.valid_handle(h),
        ensures
            k == self.spec_kind_of(self.spec_parent_of(h)),
    {
        if h == 0 {
            ContextKind::Global
        } else {
            let p = self.subs[h - 1].parent();
            self.context_kind(p)
        }
    }
}

/// Whether `anc` lies on the parent chain of `h` (inclusively).
pub open spec fn spec_on_chain(tree: ScopeTree, h: usize, anc: usize) -> bool
    decreases h,
    when tree.wf() && tree.valid_handle(h)
{
    h == anc || (h != 0 && spec_on_chain(tree, tree.spec_parent_of(h), anc))
}

/// Whether no scope on the chain from `h` (inclusive) up to `anc`
/// (exclusive) declares `n` locally.
pub open spec fn spec_unshadowed(tree: ScopeTree, h: usize, anc: usize, n: Seq<u8>) -> bool
    decreases h,
    when tree.wf() && tree.valid_handle(h)
{
    if h == anc {
        true
    } else {
        !spec_has(tree.local(h), n) && h != 0 && spec_unshadowed(
            tree,
            tree.spec_parent_of(h),
            anc,
            n,
        )
    }
}

/// A name present in a scope's own map resolves there to its own entry:
/// in particular, a binding that has just been entered is resolvable.
pub proof fn lemma_entered_name_resolves(tree: ScopeTree, h: usize, n: Seq<u8>)
    requires
        tree.wf(),
        tree.valid_handle(h),
        spec_has(tree.local(h), n),
    ensures
        tree.resolve(h, n) == Some(spec_get(tree.local(h), n)),
{
}

/// Scope chaining: a symbol declared in a scope is resolvable from any
/// descendant of that scope, with the declared classification, unless some
/// scope between the descendant and the declaring scope shadows the name.
pub proof fn lemma_scope_chaining(tree: ScopeTree, d: usize, s: usize, n: Seq<u8>)
    requires
        tree.wf(),
        tree.valid_handle(d),
        tree.valid_handle(s),
        spec_has(tree.local(s), n),
        spec_unshadowed(tree, d, s, n),
    ensures
        tree.resolve(d, n) == Some(spec_get(tree.local(s), n)),
    decreases d,
{
    if d == s {
    } else {
        lemma_scope_chaining(tree, tree.spec_parent_of(d), s, n);
    }
}


/// Whether some entry carries the given package name.
pub open spec fn spec_pkg_has(s: Seq<(Seq<u8>, Seq<(Seq<u8>, SymbolKindView)>)>, n: Seq<u8>) -> bool {
    exists|j: int| 0 <= j < s.len() && s[j].0 == n
}

/// The registry of global scopes, one per package name known to a session.
pub struct PackageContext {
    global_contexts: Vec<(Vec<u8>, GlobalContext)>,
}

impl View for PackageContext {
    type V = Seq<(Seq<u8>, Seq<(Seq<u8>, SymbolKindView)>)>;

    closed spec fn view(&self) -> Seq<(Seq<u8>, Seq<(Seq<u8>, SymbolKindView)>)> {
        self.global_contexts@.map_values(
            |e: (Vec<u8>, GlobalContext)| (e.0@, e.1.symbols_view()),
        )
    }
}

impl PackageContext {
    pub fn init() -> (r: PackageContext)
        ensures
            r@ == Seq::<(Seq<u8>, Seq<(Seq<u8>, SymbolKindView)>)>::empty(),
    {
        let r = PackageContext { global_contexts: Vec::new() };
        proof {
            assert(r@ =~= Seq::<(Seq<u8>, Seq<(Seq<u8>, SymbolKindView)>)>::empty());
        }
        r
    }

    /// Registers a global scope under a package name.
    pub fn enter_global_context(&mut self, name: Vec<u8>, ctx: GlobalContext)
        ensures
            final(self)@ == old(self)@.push((name@, ctx.symbols_view())),
    {
        let ghost oldv = self@;
        let ghost entry = (name@, ctx.symbols_view());
        self.global_contexts.push((name, ctx));
        proof {
            assert(self@ =~= oldv.push(entry));
        }
    }

    /// The registered global scope of a package, if one is known. The first
    /// registration under a name wins.
    pub fn get_global_context(&self, name: &[u8]) -> (r: Option<&GlobalContext>)
        ensures
            r is Some <==> spec_pkg_has(self@, name@),
            r matches Some(g) ==> exists|j: int|
                0 <= j < self@.len() && self@[j].0 == name@ && self@[j].1 == g.symbols_view(),
    {
        let n = self.global_contexts.len();
        let mut i: usize = 0;
        while i < n
            invariant
                i <= n,
                n == self@.len(),
                forall|j: int| 0 <= j < i ==> self@[j].0 != name@,
            decreases n - i,
        {
            if crate::util::eq_bytes(self.global_contexts[i].0.as_slice(), name) {
                proof {
                    assert(self@[i as int].0 == name@);
                }
                return Some(&self.global_contexts[i].1);
            }
            i = i + 1;
        }
        None
    }
}

} // verus!
