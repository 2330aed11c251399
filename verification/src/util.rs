//! Byte-level character classification and comparison helpers shared by the
//! tokenizer and the parser.

use vstd::prelude::*;

use vstd::string::StringSliceAdditionalSpecFns;

verus! {

/// Horizontal whitespace: space, tab or carriage return. Newlines are a
/// separate token kind because the parser counts them for line numbers.
pub open spec fn spec_is_whitespace(b: u8) -> bool {
    b == 32 || b == 9 || b == 13
}

/// A byte that may start an identifier: an ASCII letter or an underscore.
pub open spec fn spec_is_id_start(b: u8) -> bool {
    (65 <= b <= 90) || (97 <= b <= 122) || b == 95
}

/// A byte that may continue an identifier: a letter, digit or underscore.
pub open spec fn spec_is_id_continue(b: u8) -> bool {
    spec_is_id_start(b) || spec_is_digit(b)
}

/// An ASCII decimal digit.
pub open spec fn spec_is_digit(b: u8) -> bool {
    48 <= b <= 57
}

pub fn is_whitespace(b: u8) -> (r: bool)
    ensures
        r == spec_is_whitespace(b),
{
    b == 32 || b == 9 || b == 13
}

pub fn is_id_start(b: u8) -> (r: bool)
    ensures
        r == spec_is_id_start(b),
{
    (65 <= b && b <= 90) || (97 <= b && b <= 122) || b == 95
}

pub fn is_id_continue(b: u8) -> (r: bool)
    ensures
        r == spec_is_id_continue(b),
{
    is_id_start(b) || is_digit(b)
}

pub fn is_digit(b: u8) -> (r: bool)
    ensures
        r == spec_is_digit(b),
{
    48 <= b && b <= 57
}

/// Byte-wise equality of two slices, stated over their views.
pub fn eq_bytes(a: &[u8], b: &[u8]) -> (r: bool)
    ensures
        r == (a@ == b@),
{
    if a.len() != b.len() {
        proof {
            assert(a@.len() != b@.len());
        }
        return false;
    }
    let n = a.len();
    let mut i: usize = 0;
    while i < n
        invariant
            i <= n,
            n == a@.len(),
            n == b@.len(),
            forall|j: int| 0 <= j < i ==> a@[j] == b@[j],
        decreases n - i,
    {
        if a[i] != b[i] {
            return false;
        }
        i = i + 1;
    }
    proof {
        assert(a@ =~= b@);
    }
    true
}

/// Byte-wise equality of a slice and a string's encoding.
pub fn eq_str(a: &[u8], s: &str) -> (r: bool)
    ensures
        r == (a@ == s.spec_bytes()),
{
    eq_bytes(a, s.as_bytes())
}

/// Equality of a slice against a three-byte word.
pub fn eq3(id: &[u8], a: u8, b: u8, c: u8) -> (r: bool)
    ensures
        r == (id@ == seq![a, b, c]),
{
    let r = id.len() == 3 && id[0] == a && id[1] == b && id[2] == c;
    proof {
        if r {
            assert(id@ =~= seq![a, b, c]);
        } else {
            assert(id@ != seq![a, b, c]) by {
                if id@.len() == 3 {
                    assert(seq![a, b, c][0] == a && seq![a, b, c][1] == b && seq![a, b, c][2]
                        == c);
                }
            }
        }
    }
    r
}

/// Equality of a slice against a four-byte word.
pub fn eq4(id: &[u8], a: u8, b: u8, c: u8, d: u8) -> (r: bool)
    ensures
        r == (id@ == seq![a, b, c, d]),
{
    let r = id.len() == 4 && id[0] == a && id[1] == b && id[2] == c && id[3] == d;
    proof {
        if r {
            assert(id@ =~= seq![a, b, c, d]);
        } else {
            assert(id@ != seq![a, b, c, d]) by {
                if id@.len() == 4 {
                    let s = seq![a, b, c, d];
                    assert(s[0] == a && s[1] == b && s[2] == c && s[3] == d);
                }
            }
        }
    }
    r
}

/// Equality of a slice against a five-byte word.
pub fn eq5(id: &[u8], a: u8, b: u8, c: u8, d: u8, e: u8) -> (r: bool)
    ensures
        r == (id@ == seq![a, b, c, d, e]),
{
    let r = id.len() == 5 && id[0] == a && id[1] == b && id[2] == c && id[3] == d && id[4] == e;
    proof {
        if r {
            assert(id@ =~= seq![a, b, c, d, e]);
        } else {
            assert(id@ != seq![a, b, c, d, e]) by {
                if id@.len() == 5 {
                    let s = seq![a, b, c, d, e];
                    assert(s[0] == a && s[1] == b && s[2] == c && s[3] == d && s[4] == e);
                }
            }
        }
    }
    r
}

/// Equality of a slice against a six-byte word.
pub fn eq6(id: &[u8], a: u8, b: u8, c: u8, d: u8, e: u8, f: u8) -> (r: bool)
    ensures
        r == (id@ == seq![a, b, c, d, e, f]),
{
    let r = id.len() == 6 && id[0] == a && id[1] == b && id[2] == c && id[3] == d && id[4] == e
        && id[5] == f;
    proof {
        if r {
            assert(id@ =~= seq![a, b, c, d, e, f]);
        } else {
            assert(id@ != seq![a, b, c, d, e, f]) by {
                if id@.len() == 6 {
                    let s = seq![a, b, c, d, e, f];
                    assert(s[0] == a && s[1] == b && s[2] == c && s[3] == d && s[4] == e && s[5]
                        == f);
                }
            }
        }
    }
    r
}

/// Equality of a slice against an eight-byte word.
pub fn eq8(id: &[u8], a: u8, b: u8, c: u8, d: u8, e: u8, f: u8, g: u8, h: u8) -> (r: bool)
    ensures
        r == (id@ == seq![a, b, c, d, e, f, g, h]),
{
    let r = id.len() == 8 && id[0] == a && id[1] == b && id[2] == c && id[3] == d && id[4] == e
        && id[5] == f && id[6] == g && id[7] == h;
    proof {
        if r {
            assert(id@ =~= seq![a, b, c, d, e, f, g, h]);
        } else {
            assert(id@ != seq![a, b, c, d, e, f, g, h]) by {
                if id@.len() == 8 {
                    let s = seq![a, b, c, d, e, f, g, h];
                    assert(s[0] == a && s[1] == b && s[2] == c && s[3] == d && s[4] == e && s[5]
                        == f && s[6] == g && s[7] == h);
                }
            }
        }
    }
    r
}

/// Equality of a slice against a nine-byte word.
pub fn eq9(id: &[u8], a: u8, b: u8, c: u8, d: u8, e: u8, f: u8, g: u8, h: u8, i: u8) -> (r: bool)
    ensures
        r == (id@ == seq![a, b, c, d, e, f, g, h, i]),
{
    let r = id.len() == 9 && id[0] == a && id[1] == b && id[2] == c && id[3] == d && id[4] == e
        && id[5] == f && id[6] == g && id[7] == h && id[8] == i;
    proof {
        if r {
            assert(id@ =~= seq![a, b, c, d, e, f, g, h, i]);
        } else {
            assert(id@ != seq![a, b, c, d, e, f, g, h, i]) by {
                if id@.len() == 9 {
                    let s = seq![a, b, c, d, e, f, g, h, i];
                    assert(s[0] == a && s[1] == b && s[2] == c && s[3] == d && s[4] == e && s[5]
                        == f && s[6] == g && s[7] == h && s[8] == i);
                }
            }
        }
    }
    r
}

} // verus!
