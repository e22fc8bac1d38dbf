use vstd::prelude::*;
use crate::error::{SysError, SysResult, EINVAL};

verus! {

/// `s` holds no zero byte, so it can cross the boundary as a C string.
pub open spec fn nul_free(s: Seq<u8>) -> bool {
    forall|i: int| 0 <= i < s.len() ==> s[i] != 0
}

/// The C form of `s`: its bytes followed by one terminating zero.
pub open spec fn c_form(s: Seq<u8>) -> Seq<u8> {
    s.push(0)
}

/// Every string of `items` holds no zero byte.
pub open spec fn all_nul_free(items: Seq<Vec<u8>>) -> bool {
    forall|i: int| 0 <= i < items.len() ==> nul_free(#[trigger] items[i]@)
}

/// `out` holds the C forms of `items`, one for one and in the same order.
pub open spec fn c_forms_of(out: Seq<Vec<u8>>, items: Seq<Vec<u8>>) -> bool {
    &&& out.len() == items.len()
    &&& forall|i: int| 0 <= i < items.len() ==> #[trigger] out[i]@ == c_form(items[i]@)
}

/// The C form of the path `path`: its bytes and a terminating zero.
/// A path with a zero byte in it is refused with `EINVAL`.
pub fn to_c_path(path: &[u8]) -> (r: SysResult<Vec<u8>>)
    ensures
        nul_free(path@) <==> r is Ok,
        r matches Ok(v) ==> v@ == c_form(path@),
        r matches Err(e) ==> e.errno == EINVAL,
{
    let mut out: Vec<u8> = Vec::new();
    let mut i: usize = 0;
    while i < path.len()
        invariant
            i <= path@.len(),
            out@ == path@.subrange(0, i as int),
            nul_free(path@.subrange(0, i as int)),
        decreases path@.len() - i,
    {
        let b = path[i];
        if b == 0 {
            assert(!nul_free(path@));
            return Err(SysError { errno: EINVAL });
        }
        out.push(b);
        i = i + 1;
        assert(out@ == path@.subrange(0, i as int));
    }
    assert(path@.subrange(0, i as int) == path@);
    out.push(0);
    Ok(out)
}

/// The C forms of `items`, in their order; the caller adds the null sentinel
/// that ends the vector. A string with a zero byte in it is refused with `EINVAL`.
pub fn to_c_vector(items: &[Vec<u8>]) -> (r: SysResult<Vec<Vec<u8>>>)
    ensures
        all_nul_free(items@) <==> r is Ok,
        r matches Ok(v) ==> c_forms_of(v@, items@),
        r matches Err(e) ==> e.errno == EINVAL,
{
    let mut out: Vec<Vec<u8>> = Vec::with_capacity(items.len());
    let mut i: usize = 0;
    while i < items.len()
        invariant
            i <= items@.len(),
            c_forms_of(out@, items@.subrange(0, i as int)),
            all_nul_free(items@.subrange(0, i as int)),
        decreases items@.len() - i,
    {
        match to_c_path(items[i].as_slice()) {
            Ok(c) => {
                out.push(c);
            },
            Err(e) => {
                assert(!all_nul_free(items@)) by {
                    assert(!nul_free(items@[i as int]@));
                }
                return Err(e);
            },
        }
        i = i + 1;
        assert forall|j: int| 0 <= j < i implies #[trigger] out@[j]@ == c_form(items@.subrange(0, i as int)[j]@) by {
            assert(items@.subrange(0, i as int)[j] == items@[j]);
        }
        assert forall|j: int| 0 <= j < i implies nul_free(#[trigger] items@.subrange(0, i as int)[j]@) by {
            assert(items@.subrange(0, i as int)[j] == items@[j]);
            if j < i - 1 {
                assert(items@.subrange(0, i - 1)[j] == items@[j]);
            }
        }
    }
    assert(items@.subrange(0, i as int) == items@);
    Ok(out)
}

} // verus!
