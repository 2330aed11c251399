//! The primitive writer the IR backend builds on: an in-memory byte buffer,
//! a counter for fresh value ids, and a map from names to the ids they were
//! given. The expression tree itself is consumed by the external backend;
//! the parts here are only what lowering appends with.

use vstd::prelude::*;

use vstd::string::StrSliceExecFns;
use vstd::string::StringSliceAdditionalSpecFns;

use crate::ast::{BinOp, Ty, TY_BOOL, TY_INT16, TY_INT32, TY_INT64, TY_UINT32};

verus! {

/// The id the first record for a name carries, if the name has one.
pub open spec fn spec_first_id(ids: Seq<(Seq<u8>, usize)>, name: Seq<u8>) -> Option<usize>
    decreases ids.len(),
{
    if ids.len() == 0 {
        None
    } else if ids[0].0 == name {
        Some(ids[0].1)
    } else {
        spec_first_id(ids.drop_first(), name)
    }
}

/// Where no record among the first `i` matches, the first match overall is
/// the first match from `i` on.
proof fn lemma_first_id_skip(ids: Seq<(Seq<u8>, usize)>, name: Seq<u8>, i: int)
    requires
        0 <= i <= ids.len(),
        forall|j: int| 0 <= j < i ==> (#[trigger] ids[j]).0 != name,
    ensures
        spec_first_id(ids, name) == spec_first_id(ids.skip(i), name),
    decreases i,
{
    if i > 0 {
        assert(ids.drop_first() =~= ids.skip(1));
        assert forall|j: int| 0 <= j < i - 1 implies (#[trigger] ids.skip(1)[j]).0 != name by {
            assert(ids.skip(1)[j] == ids[j + 1]);
        }
        lemma_first_id_skip(ids.skip(1), name, i - 1);
        assert(ids.skip(1).skip(i - 1) =~= ids.skip(i));
    } else {
        assert(ids.skip(0) =~= ids);
    }
}

/// What can go wrong while lowering.
#[derive(Debug, Clone, Copy, PartialEq, Eq, Structural)]
pub enum BackendError {
    /// A node kind the lowering pass cannot place here.
    Other,
    /// The output sink failed.
    Io,
}

/// Lowering a construct into the writer's buffer.
pub trait WriteIr {
    fn lower(self, writer: &mut IrCodegen) -> Result<(), BackendError>;
}

/// The backend's writer: the emitted bytes, a running id counter, and the
/// ids already handed to named values.
pub struct IrCodegen {
    buf: Vec<u8>,
    count: usize,
    id_vars: Vec<(Vec<u8>, usize)>,
}

impl IrCodegen {
    /// The bytes emitted so far.
    pub closed spec fn buf_view(&self) -> Seq<u8> {
        self.buf@
    }

    /// The id counter.
    pub closed spec fn spec_count(&self) -> usize {
        self.count
    }

    /// The name-to-id pairs recorded so far.
    pub closed spec fn ids_view(&self) -> Seq<(Seq<u8>, usize)> {
        self.id_vars@.map_values(|e: (Vec<u8>, usize)| (e.0@, e.1))
    }

    pub fn init() -> (r: IrCodegen)
        ensures
            r.buf_view() == Seq::<u8>::empty(),
            r.spec_count() == 0,
            r.ids_view() == Seq::<(Seq<u8>, usize)>::empty(),
    {
        let r = IrCodegen { buf: Vec::new(), count: 0, id_vars: Vec::new() };
        proof {
            assert(r.ids_view() =~= Seq::<(Seq<u8>, usize)>::empty());
        }
        r
    }

    /// Hands out the next fresh value id.
    pub fn inc_and_return(&mut self) -> (id: usize)
        requires
            old(self).spec_count() < usize::MAX,
        ensures
            id == old(self).spec_count() + 1,
            final(self).spec_count() == id,
            final(self).buf_view() == old(self).buf_view(),
            final(self).ids_view() == old(self).ids_view(),
    {
        self.count = self.count + 1;
        self.count
    }

    /// Records the id a name was lowered under.
    pub fn id_and_ident(&mut self, ident: Vec<u8>, id: usize)
        ensures
            final(self).ids_view() == old(self).ids_view().push((ident@, id)),
            final(self).buf_view() == old(self).buf_view(),
            final(self).spec_count() == old(self).spec_count(),
    {
        let ghost oldv = self.ids_view();
        let ghost entry = (ident@, id);
        self.id_vars.push((ident, id));
        proof {
            assert(self.ids_view() =~= oldv.push(entry));
        }
    }

    /// The id a name was lowered under, if it has one; the first record
    /// wins.
    pub fn id_for_ident(&self, ident: &[u8]) -> (r: Option<usize>)
        ensures
            r == spec_first_id(self.ids_view(), ident@),
    {
        let n = self.id_vars.len();
        let mut i: usize = 0;
        while i < n
            invariant
                i <= n,
                n == self.ids_view().len(),
                forall|j: int| 0 <= j < i ==> (#[trigger] self.ids_view()[j]).0 != ident@,
            decreases n - i,
        {
            if crate::util::eq_bytes(self.id_vars[i].0.as_slice(), ident) {
                proof {
                    assert(self.ids_view()[i as int] == (ident@, self.id_vars@[i as int].1));
                    lemma_first_id_skip(self.ids_view(), ident@, i as int);
                }
                return Some(self.id_vars[i].1);
            }
            i = i + 1;
        }
        proof {
            lemma_first_id_skip(self.ids_view(), ident@, self.ids_view().len() as int);
        }
        None
    }

    /// Appends text to the buffer and reports how many bytes went in.
    pub fn write_str(&mut self, s: &str) -> (n: usize)
        ensures
            final(self).buf_view() == old(self).buf_view() + s.spec_bytes(),
            n == s.spec_bytes().len(),
            final(self).spec_count() == old(self).spec_count(),
            final(self).ids_view() == old(self).ids_view(),
    {
        let mut bytes = s.as_bytes_vec();
        let n = bytes.len();
        self.buf.append(&mut bytes);
        n
    }

    /// Appends raw bytes to the buffer.
    pub fn write_bytes(&mut self, s: &[u8]) -> (n: usize)
        ensures
            final(self).buf_view() == old(self).buf_view() + s@,
            n == s@.len(),
            final(self).spec_count() == old(self).spec_count(),
            final(self).ids_view() == old(self).ids_view(),
    {
        let mut bytes = vstd::slice::slice_to_vec(s);
        let n = bytes.len();
        self.buf.append(&mut bytes);
        n
    }

    /// The emitted bytes, for the caller to hand on.
    pub fn as_bytes(&self) -> (r: &[u8])
        ensures
            r@ == self.buf_view(),
    {
        self.buf.as_slice()
    }
}

/// The decimal spelling of a number, most significant digit first.
pub open spec fn spec_decimal(n: nat) -> Seq<u8>
    decreases n,
{
    if n < 10 {
        seq![(48 + n) as u8]
    } else {
        spec_decimal(n / 10).push((48 + n % 10) as u8)
    }
}

/// Renders a number in decimal.
pub fn encode_decimal(n: usize) -> (r: Vec<u8>)
    ensures
        r@ == spec_decimal(n as nat),
    decreases n,
{
    if n < 10 {
        let mut v: Vec<u8> = Vec::new();
        v.push(48 + n as u8);
        proof {
            assert(v@ =~= seq![(48 + n as nat) as u8]);
        }
        v
    } else {
        let mut v = encode_decimal(n / 10);
        v.push(48 + (n % 10) as u8);
        proof {
            assert((n / 10) as nat == n as nat / 10);
            assert((48 + (n % 10) as nat) as u8 == 48 + (n % 10) as u8);
        }
        v
    }
}

/// The text one argument contributes to a call's argument list: a percent
/// sign, the name, and the id it was lowered under.
pub open spec fn spec_arg_text(name: Seq<u8>, id: usize) -> Seq<u8> {
    seq![37u8] + name + spec_decimal(id as nat)
}

/// The text of the arguments from position `i` on, comma-separated, under
/// the ids the writer recorded (meaningful when every name has one).
pub open spec fn spec_args_text(ids: Seq<(Seq<u8>, usize)>, args: Seq<Seq<u8>>, i: int) -> Seq<u8>
    decreases args.len() - i,
    when i >= 0
{
    if i >= args.len() {
        Seq::<u8>::empty()
    } else {
        let id = match spec_first_id(ids, args[i]) {
            Some(id) => id,
            None => 0,
        };
        let sep: Seq<u8> = if i > 0 {
            seq![44u8, 32u8]
        } else {
            Seq::<u8>::empty()
        };
        sep + spec_arg_text(args[i], id) + spec_args_text(ids, args, i + 1)
    }
}

/// Writes a call's argument list: each name under the id it was lowered
/// with, comma-separated and parenthesized. A name the writer has no id
/// for stops the emission and is refused.
pub fn write_args(args: &Vec<Vec<u8>>, writer: &mut IrCodegen) -> (r: Result<(), BackendError>)
    ensures
        final(writer).spec_count() == old(writer).spec_count(),
        final(writer).ids_view() == old(writer).ids_view(),
        (forall|i: int|
            0 <= i < args@.len() ==> spec_first_id(
                old(writer).ids_view(),
                (#[trigger] args@[i])@,
            ) is Some) ==> r is Ok && final(writer).buf_view() == old(writer).buf_view() + seq![
            40u8,
        ] + spec_args_text(
            old(writer).ids_view(),
            args@.map_values(|v: Vec<u8>| v@),
            0,
        ) + seq![41u8],
        r is Err ==> exists|i: int|
            0 <= i < args@.len() && spec_first_id(old(writer).ids_view(), (#[trigger] args@[i])@)
                is None,
{
    let ghost ids = writer.ids_view();
    let ghost names = args@.map_values(|v: Vec<u8>| v@);
    let _ = writer.write_bytes(&[40]);
    let ghost buf0 = writer.buf_view();
    let n = args.len();
    let mut i: usize = 0;
    proof {
        assert(buf0 =~= old(writer).buf_view() + seq![40u8]);
    }
    while i < n
        invariant
            i <= n,
            n == args@.len(),
            ids == writer.ids_view(),
            names == args@.map_values(|v: Vec<u8>| v@),
            writer.spec_count() == old(writer).spec_count(),
            buf0 == old(writer).buf_view() + seq![40u8],
            writer.buf_view() + spec_args_text(ids, names, i as int) == buf0 + spec_args_text(
                ids,
                names,
                0,
            ),
            forall|j: int| 0 <= j < i ==> spec_first_id(ids, (#[trigger] args@[j])@) is Some,
        decreases n - i,
    {
        let id: usize = match writer.id_for_ident(args[i].as_slice()) {
            Some(id) => id,
            None => {
                return Err(BackendError::Other);
            },
        };
        if i != 0 {
            let _ = writer.write_bytes(&[44, 32]);
            proof {
                assert([44u8, 32u8]@ =~= seq![44u8, 32u8]);
            }
        }
        let _ = writer.write_bytes(&[37]);
        let _ = writer.write_bytes(args[i].as_slice());
        let dec = encode_decimal(id);
        let _ = writer.write_bytes(dec.as_slice());
        proof {
            assert([37u8]@ =~= seq![37u8]);
            assert(names[i as int] == args@[i as int]@);
            let sep: Seq<u8> = if i > 0 {
                seq![44u8, 32u8]
            } else {
                Seq::<u8>::empty()
            };
            assert(spec_args_text(ids, names, i as int) == sep + spec_arg_text(
                names[i as int],
                id,
            ) + spec_args_text(ids, names, i as int + 1));
            assert(writer.buf_view() + spec_args_text(ids, names, i as int + 1) =~= buf0
                + spec_args_text(ids, names, 0));
        }
        i = i + 1;
    }
    let _ = writer.write_bytes(&[41]);
    proof {
        assert(spec_args_text(ids, names, n as int) =~= Seq::<u8>::empty());
        assert([41u8]@ =~= seq![41u8]);
        assert(writer.buf_view() =~= old(writer).buf_view() + seq![40u8] + spec_args_text(
            ids,
            names,
            0,
        ) + seq![41u8]);
    }
    Ok(())
}

impl Ty {
    /// The spelling of a built-in type in the textual IR. Only the types
    /// the lowering pass places in arithmetic have one.
    pub fn to_llvm_name(self) -> (r: Option<&'static str>)
        ensures
            r is Some <==> (self.0 == TY_BOOL || self.0 == TY_INT16 || self.0 == TY_INT32
                || self.0 == TY_INT64 || self.0 == TY_UINT32),
    {
        if self.0 == TY_BOOL {
            Some("i1 ")
        } else if self.0 == TY_INT16 {
            Some("i16 ")
        } else if self.0 == TY_INT32 {
            Some("i32 ")
        } else if self.0 == TY_INT64 {
            Some("i64 ")
        } else if self.0 == TY_UINT32 {
            Some("u32 ")
        } else {
            None
        }
    }
}

impl WriteIr for BinOp {
    /// Arithmetic operators lower to their instruction mnemonics; the
    /// other operators have no lowering yet and are refused.
    fn lower(self, writer: &mut IrCodegen) -> (r: Result<(), BackendError>)
        ensures
            self == BinOp::Plus ==> r is Ok && final(writer).buf_view() == old(writer).buf_view() + "add "@.map_values(|c: char| c as u8),
            self == BinOp::Minus ==> r is Ok && final(writer).buf_view() == old(writer).buf_view() + "sub "@.map_values(|c: char| c as u8),
            !(self == BinOp::Plus || self == BinOp::Minus) ==> r is Err && final(writer).buf_view() == old(writer).buf_view(),
    {
        match self {
            BinOp::Plus => {
                let _ = writer.write_str("add ");
                proof {
                    reveal_strlit("add ");
                    vstd::string::is_ascii_spec_bytes("add ");
                    assert("add ".spec_bytes() =~= "add "@.map_values(|c: char| c as u8));
                }
                Ok(())
            },
            BinOp::Minus => {
                let _ = writer.write_str("sub ");
                proof {
                    reveal_strlit("sub ");
                    vstd::string::is_ascii_spec_bytes("sub ");
                    assert("sub ".spec_bytes() =~= "sub "@.map_values(|c: char| c as u8));
                }
                Ok(())
            },
            _ => Err(BackendError::Other),
        }
    }
}

} // verus!
