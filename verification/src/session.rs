//! The compilation session: one explicit object carrying the source buffer,
//! the interned type table and its id allocator, and the run's options. It is
//! passed to every operation that needs it instead of living in ambient
//! global state.

use vstd::prelude::*;

use crate::ast::{
    Ty, OFFSET_FROM_BUILTIN, TY_BOOL, TY_INT16, TY_INT32, TY_INT64, TY_INT8, TY_STR, TY_UINT16,
    TY_UINT32, TY_UINT64, TY_UINT8,
};
use crate::scope::PackageContext;
use crate::util::{eq3, eq4, eq5, eq6};

verus! {

/// Option flags of one run.
#[derive(Debug, Clone, Copy, PartialEq, Eq, Structural)]
pub struct Options(pub usize);

/// Treat warnings as errors.
pub const INCLUDE_WARNINGS_AS_ERRORS: usize = 1;

/// Whether some table entry carries the given type id.
pub open spec fn spec_tbl_has(s: Seq<(usize, Seq<u8>)>, k: usize) -> bool {
    exists|j: int| 0 <= j < s.len() && s[j].0 == k
}

/// The name behind a type id (meaningful when ids are unique and present).
pub open spec fn spec_tbl_get(s: Seq<(usize, Seq<u8>)>, k: usize) -> Seq<u8> {
    s[choose|j: int| 0 <= j < s.len() && s[j].0 == k].1
}

/// One compilation session.
pub struct Session {
    /// The fully expanded source buffer handed over by the preprocessor.
    pub contents: Vec<u8>,
    /// Where output is to be written, if anywhere; the caller interprets it.
    pub out_dir: Option<Vec<u8>>,
    /// Raw option flags.
    pub options: usize,
    type_ids: usize,
    types_hashmap: Vec<(usize, Vec<u8>)>,
    /// The global scopes known to this session, one per package name.
    pub package_context: PackageContext,
}

impl Session {
    /// The registered user types: id and name pairs.
    pub closed spec fn table_view(&self) -> Seq<(usize, Seq<u8>)> {
        self.types_hashmap@.map_values(|e: (usize, Vec<u8>)| (e.0, e.1@))
    }

    /// The next id the allocator will hand out.
    pub closed spec fn next_id(&self) -> usize {
        self.type_ids
    }

    /// The raw option flags.
    pub closed spec fn spec_options(&self) -> usize {
        self.options
    }

    /// The source buffer.
    pub closed spec fn contents_view(&self) -> Seq<u8> {
        self.contents@
    }

    /// Where output is to go, if anywhere.
    pub closed spec fn out_dir_view(&self) -> Option<Seq<u8>> {
        match self.out_dir {
            Some(ref p) => Some(p@),
            None => None,
        }
    }

    /// The registered package scopes.
    pub closed spec fn package_view(&self) -> Seq<(Seq<u8>, Seq<(Seq<u8>, crate::scope::SymbolKindView)>)> {
        self.package_context@
    }

    /// Registered ids are pairwise distinct, at or above the built-in
    /// offset, and below the allocator's next id.
    pub closed spec fn wf(&self) -> bool {
        &&& OFFSET_FROM_BUILTIN <= self.type_ids
        &&& forall|i: int, j: int|
            0 <= i < j < self.table_view().len() ==> (#[trigger] self.table_view()[i]).0 != (
            #[trigger] self.table_view()[j]).0
        &&& forall|i: int|
            0 <= i < self.table_view().len() ==> OFFSET_FROM_BUILTIN <= (
            #[trigger] self.table_view()[i]).0 < self.type_ids
    }

    pub fn builder() -> (r: SessionBuilder)
        ensures
            r.options == 0,
    {
        SessionBuilder { in_file: None, out_file: None, options: 0 }
    }

    pub fn has_flag_no_warnings_set(&self) -> (r: bool)
        ensures
            r == (self.spec_options() & INCLUDE_WARNINGS_AS_ERRORS != 0),
    {
        self.options & INCLUDE_WARNINGS_AS_ERRORS != 0
    }

    /// Hands out a fresh type id and moves the allocator past it.
    pub fn get_next_type_id(&mut self) -> (id: usize)
        requires
            old(self).wf(),
            old(self).next_id() < usize::MAX,
        ensures
            final(self).wf(),
            id == old(self).next_id(),
            final(self).next_id() == id + 1,
            final(self).table_view() == old(self).table_view(),
            final(self).contents_view() == old(self).contents_view(),
            final(self).spec_options() == old(self).spec_options(),
            final(self).out_dir_view() == old(self).out_dir_view(),
            final(self).package_view() == old(self).package_view(),
    {
        let id = self.type_ids;
        self.type_ids = self.type_ids + 1;
        proof {
            assert(self.table_view() =~= old(self).table_view());
            assert forall|i: int, j: int|
                0 <= i < j < self.table_view().len() implies (#[trigger] self.table_view()[i]).0
                != (#[trigger] self.table_view()[j]).0 by {
                assert(old(self).table_view()[i].0 != old(self).table_view()[j].0);
            }
            assert forall|i: int|
                0 <= i < self.table_view().len() implies OFFSET_FROM_BUILTIN <= (
            #[trigger] self.table_view()[i]).0 < self.type_ids by {
                assert(OFFSET_FROM_BUILTIN <= old(self).table_view()[i].0 < old(self).next_id());
            }
        }
        id
    }

    /// Enters a freshly allocated id with its name into the type table.
    pub fn register(&mut self, k: usize, v: Vec<u8>)
        requires
            old(self).wf(),
            !spec_tbl_has(old(self).table_view(), k),
            OFFSET_FROM_BUILTIN <= k < old(self).next_id(),
        ensures
            final(self).wf(),
            final(self).table_view() == old(self).table_view().push((k, v@)),
            final(self).next_id() == old(self).next_id(),
            final(self).contents_view() == old(self).contents_view(),
            final(self).spec_options() == old(self).spec_options(),
            final(self).out_dir_view() == old(self).out_dir_view(),
            final(self).package_view() == old(self).package_view(),
    {
        let ghost oldv = self.table_view();
        self.types_hashmap.push((k, v));
        proof {
            assert(self.table_view() =~= oldv.push((k, v@)));
        }
    }

    /// Looks a registered type name up by id.
    pub fn type_name_of(&self, k: usize) -> (r: Option<&Vec<u8>>)
        requires
            self.wf(),
        ensures
            r is Some <==> spec_tbl_has(self.table_view(), k),
            r matches Some(v) ==> v@ == spec_tbl_get(self.table_view(), k),
    {
        let n = self.types_hashmap.len();
        let mut i: usize = 0;
        while i < n
            invariant
                i <= n,
                n == self.table_view().len(),
                self.wf(),
                forall|j: int| 0 <= j < i ==> (#[trigger] self.table_view()[j]).0 != k,
            decreases n - i,
        {
            if self.types_hashmap[i].0 == k {
                proof {
                    assert(self.table_view()[i as int].0 == k);
                    let j = choose|j: int|
                        0 <= j < self.table_view().len() && self.table_view()[j].0 == k;
                    assert(j == i as int);
                }
                return Some(&self.types_hashmap[i].1);
            }
            i = i + 1;
        }
        None
    }
}

impl Session {
    /// The id of the first registered type with the given name, if any.
    pub fn type_id_of_name(&self, n: &[u8]) -> (r: Option<usize>)
        ensures
            r == spec_first_ty_id(self.table_view(), n@),
    {
        let m = self.types_hashmap.len();
        let mut i: usize = 0;
        while i < m
            invariant
                i <= m,
                m == self.table_view().len(),
                forall|j: int| 0 <= j < i ==> (#[trigger] self.table_view()[j]).1 != n@,
            decreases m - i,
        {
            if crate::util::eq_bytes(self.types_hashmap[i].1.as_slice(), n) {
                proof {
                    assert(self.table_view()[i as int].1 == n@);
                    lemma_first_ty_id_skip(self.table_view(), n@, i as int);
                }
                return Some(self.types_hashmap[i].0);
            }
            i = i + 1;
        }
        proof {
            lemma_first_ty_id_skip(self.table_view(), n@, self.table_view().len() as int);
        }
        None
    }
}

/// Where no entry among the first `i` carries the name, the first match
/// overall is the first match from `i` on.
proof fn lemma_first_ty_id_skip(table: Seq<(usize, Seq<u8>)>, n: Seq<u8>, i: int)
    requires
        0 <= i <= table.len(),
        forall|j: int| 0 <= j < i ==> (#[trigger] table[j]).1 != n,
    ensures
        spec_first_ty_id(table, n) == spec_first_ty_id(table.skip(i), n),
    decreases i,
{
    if i > 0 {
        assert(table.drop_first() =~= table.skip(1));
        assert forall|j: int| 0 <= j < i - 1 implies (#[trigger] table.skip(1)[j]).1 != n by {
            assert(table.skip(1)[j] == table[j + 1]);
        }
        lemma_first_ty_id_skip(table.skip(1), n, i - 1);
        assert(table.skip(1).skip(i - 1) =~= table.skip(i));
    } else {
        assert(table.skip(0) =~= table);
    }
}

/// Step-by-step construction of a [`Session`].
pub struct SessionBuilder {
    pub in_file: Option<Vec<u8>>,
    pub out_file: Option<Vec<u8>>,
    pub options: usize,
}

impl SessionBuilder {
    /// Remembers the path of the compilation unit.
    pub fn input(self, path: Vec<u8>) -> (r: SessionBuilder)
        ensures
            r.options == self.options,
            r.in_file == Some(path),
            r.out_file == self.out_file,
    {
        SessionBuilder { in_file: Some(path), out_file: self.out_file, options: self.options }
    }

    /// Remembers where output should go.
    pub fn output_to(self, path: Vec<u8>) -> (r: SessionBuilder)
        ensures
            r.options == self.options,
            r.out_file == Some(path),
            r.in_file == self.in_file,
    {
        SessionBuilder { in_file: self.in_file, out_file: Some(path), options: self.options }
    }

    pub fn add_option(self, opt: Options) -> (r: SessionBuilder)
        ensures
            r.options == (self.options | opt.0),
    {
        SessionBuilder {
            in_file: self.in_file,
            out_file: self.out_file,
            options: self.options | opt.0,
        }
    }

    /// Finishes the builder into a session over an already-read source
    /// buffer; reading the file is the caller's business.
    pub fn build(self, contents: Vec<u8>) -> (r: Session)
        ensures
            r.wf(),
            r.contents_view() == contents@,
            r.spec_options() == self.options,
            r.table_view() == Seq::<(usize, Seq<u8>)>::empty(),
            r.next_id() == OFFSET_FROM_BUILTIN,
            r.out_dir_view() == match self.out_file {
                Some(ref p) => Some::<Seq<u8>>(p@),
                None => None::<Seq<u8>>,
            },
    {
        let r = Session {
            contents,
            out_dir: self.out_file,
            options: self.options,
            type_ids: OFFSET_FROM_BUILTIN,
            types_hashmap: Vec::new(),
            package_context: PackageContext::init(),
        };
        proof {
            assert(r.table_view() =~= Seq::<(usize, Seq<u8>)>::empty());
        }
        r
    }
}

// The spellings of the built-in type names.
pub open spec fn spec_name_int8() -> Seq<u8> {
    seq!['I' as u8, 'n' as u8, 't' as u8, '8' as u8]
}

pub open spec fn spec_name_int16() -> Seq<u8> {
    seq!['I' as u8, 'n' as u8, 't' as u8, '1' as u8, '6' as u8]
}

pub open spec fn spec_name_int32() -> Seq<u8> {
    seq!['I' as u8, 'n' as u8, 't' as u8, '3' as u8, '2' as u8]
}

pub open spec fn spec_name_int64() -> Seq<u8> {
    seq!['I' as u8, 'n' as u8, 't' as u8, '6' as u8, '4' as u8]
}

pub open spec fn spec_name_uint8() -> Seq<u8> {
    seq!['U' as u8, 'i' as u8, 'n' as u8, 't' as u8, '8' as u8]
}

pub open spec fn spec_name_uint16() -> Seq<u8> {
    seq!['U' as u8, 'i' as u8, 'n' as u8, 't' as u8, '1' as u8, '6' as u8]
}

pub open spec fn spec_name_uint32() -> Seq<u8> {
    seq!['U' as u8, 'i' as u8, 'n' as u8, 't' as u8, '3' as u8, '2' as u8]
}

pub open spec fn spec_name_uint64() -> Seq<u8> {
    seq!['U' as u8, 'i' as u8, 'n' as u8, 't' as u8, '6' as u8, '4' as u8]
}

pub open spec fn spec_name_str() -> Seq<u8> {
    seq!['S' as u8, 't' as u8, 'r' as u8]
}

pub open spec fn spec_name_bool() -> Seq<u8> {
    seq!['B' as u8, 'o' as u8, 'o' as u8, 'l' as u8]
}

/// The id of the first table entry carrying the given name, if any.
pub open spec fn spec_first_ty_id(table: Seq<(usize, Seq<u8>)>, n: Seq<u8>) -> Option<usize>
    decreases table.len(),
{
    if table.len() == 0 {
        None
    } else if table[0].1 == n {
        Some(table[0].0)
    } else {
        spec_first_ty_id(table.drop_first(), n)
    }
}

/// What a type spelling resolves to: one of the built-in names, or else
/// the first session-registered type of that name.
pub open spec fn spec_resolve_ty(n: Seq<u8>, table: Seq<(usize, Seq<u8>)>) -> Option<Ty> {
    match spec_ty_of_name(n) {
        Some(t) => Some(t),
        None => match spec_first_ty_id(table, n) {
            Some(k) => Some(Ty(k)),
            None => None,
        },
    }
}

/// The built-in type id a spelling resolves to, if any.
pub open spec fn spec_ty_of_name(n: Seq<u8>) -> Option<Ty> {
    if n == spec_name_int8() {
        Some(Ty(TY_INT8))
    } else if n == spec_name_int16() {
        Some(Ty(TY_INT16))
    } else if n == spec_name_int32() {
        Some(Ty(TY_INT32))
    } else if n == spec_name_int64() {
        Some(Ty(TY_INT64))
    } else if n == spec_name_uint8() {
        Some(Ty(TY_UINT8))
    } else if n == spec_name_uint16() {
        Some(Ty(TY_UINT16))
    } else if n == spec_name_uint32() {
        Some(Ty(TY_UINT32))
    } else if n == spec_name_uint64() {
        Some(Ty(TY_UINT64))
    } else if n == spec_name_str() {
        Some(Ty(TY_STR))
    } else if n == spec_name_bool() {
        Some(Ty(TY_BOOL))
    } else {
        None
    }
}

impl Ty {
    /// Allocates a fresh user type id from the session.
    pub fn gen_from_session(session: &mut Session) -> (t: Ty)
        requires
            old(session).wf(),
            old(session).next_id() < usize::MAX,
        ensures
            final(session).wf(),
            t.0 == old(session).next_id(),
            final(session).next_id() == t.0 + 1,
            final(session).table_view() == old(session).table_view(),
    {
        Ty(session.get_next_type_id())
    }

    /// The registered name behind a user type id.
    pub fn get<'a>(self, session: &'a Session) -> (r: Option<&'a Vec<u8>>)
        requires
            session.wf(),
        ensures
            r is Some <==> spec_tbl_has(session.table_view(), self.0),
            r matches Some(v) ==> v@ == spec_tbl_get(session.table_view(), self.0),
    {
        session.type_name_of(self.0)
    }

    /// Enters this freshly allocated id with its name into the session's
    /// type table.
    pub fn register(self, yarn: Vec<u8>, session: &mut Session) -> (t: Ty)
        requires
            old(session).wf(),
            !spec_tbl_has(old(session).table_view(), self.0),
            OFFSET_FROM_BUILTIN <= self.0 < old(session).next_id(),
        ensures
            final(session).wf(),
            t == self,
            final(session).table_view() == old(session).table_view().push((self.0, yarn@)),
    {
        session.register(self.0, yarn);
        self
    }

    /// Resolves a type name: one of the built-in spellings, or else a
    /// type registered in the session's type table.
    pub fn try_get(yarn: &[u8], session: &Session) -> (r: Option<Ty>)
        ensures
            r == spec_resolve_ty(yarn@, session.table_view()),
    {
        if eq4(yarn, 'I' as u8, 'n' as u8, 't' as u8, '8' as u8) {
            Some(Ty(TY_INT8))
        } else if eq5(yarn, 'I' as u8, 'n' as u8, 't' as u8, '1' as u8, '6' as u8) {
            Some(Ty(TY_INT16))
        } else if eq5(yarn, 'I' as u8, 'n' as u8, 't' as u8, '3' as u8, '2' as u8) {
            Some(Ty(TY_INT32))
        } else if eq5(yarn, 'I' as u8, 'n' as u8, 't' as u8, '6' as u8, '4' as u8) {
            Some(Ty(TY_INT64))
        } else if eq5(yarn, 'U' as u8, 'i' as u8, 'n' as u8, 't' as u8, '8' as u8) {
            Some(Ty(TY_UINT8))
        } else if eq6(yarn, 'U' as u8, 'i' as u8, 'n' as u8, 't' as u8, '1' as u8, '6' as u8) {
            Some(Ty(TY_UINT16))
        } else if eq6(yarn, 'U' as u8, 'i' as u8, 'n' as u8, 't' as u8, '3' as u8, '2' as u8) {
            Some(Ty(TY_UINT32))
        } else if eq6(yarn, 'U' as u8, 'i' as u8, 'n' as u8, 't' as u8, '6' as u8, '4' as u8) {
            Some(Ty(TY_UINT64))
        } else if eq3(yarn, 'S' as u8, 't' as u8, 'r' as u8) {
            Some(Ty(TY_STR))
        } else if eq4(yarn, 'B' as u8, 'o' as u8, 'o' as u8, 'l' as u8) {
            Some(Ty(TY_BOOL))
        } else {
            match session.type_id_of_name(yarn) {
                Some(k) => Some(Ty(k)),
                None => None,
            }
        }
    }
}

} // verus!
