//! Strings as the engine's C interface takes them: bytes without a zero byte.

use vstd::prelude::*;

use crate::error::{NulErrorOf, SpecValueError, ValueError, ValueErrorOf};

verus! {

/// The position of the first zero byte of `bytes`, or the length of `bytes` when there is none.
pub open spec fn first_zero(bytes: Seq<u8>) -> int
    decreases bytes.len(),
{
    if bytes.len() == 0 || bytes[0] == 0 {
        0
    } else {
        1 + first_zero(bytes.drop_first())
    }
}

/// Whether `bytes` can be handed over as a C string.
pub open spec fn zero_free(bytes: Seq<u8>) -> bool {
    forall|i: int| 0 <= i < bytes.len() ==> bytes[i] != 0
}

/// A byte string that holds no zero byte.
#[derive(Debug, PartialEq, Eq)]
pub struct CString {
    bytes: Vec<u8>,
}

impl View for CString {
    type V = Seq<u8>;

    closed spec fn view(&self) -> Seq<u8> {
        self.bytes@
    }
}

impl CString {
    #[verifier::type_invariant]
    spec fn well_formed(self) -> bool {
        zero_free(self.bytes@)
    }

    /// The empty string.
    pub fn empty() -> (text: CString)
        ensures
            text@ == Seq::<u8>::empty(),
    {
        CString { bytes: Vec::new() }
    }

    /// The string of bytes that are known to hold no zero byte.
    pub(crate) fn from_zero_free(bytes: Vec<u8>) -> (text: CString)
        requires
            zero_free(bytes@),
        ensures
            text@ == bytes@,
    {
        CString { bytes }
    }

    /// The bytes, without a terminator.
    pub fn as_bytes(&self) -> (bytes: &[u8])
        ensures
            bytes@ == self@,
            zero_free(bytes@),
    {
        proof {
            use_type_invariant(self);
        }
        self.bytes.as_slice()
    }

    /// A second string with the same bytes.
    pub fn duplicate(&self) -> (copy: CString)
        ensures
            copy@ == self@,
    {
        proof {
            use_type_invariant(self);
        }
        CString { bytes: vstd::slice::slice_to_vec(self.bytes.as_slice()) }
    }
}

/// `first_zero` is where the zero-free prefix of `bytes` ends.
pub proof fn lemma_first_zero(bytes: Seq<u8>)
    ensures
        0 <= first_zero(bytes) <= bytes.len(),
        zero_free(bytes.take(first_zero(bytes))),
        first_zero(bytes) < bytes.len() ==> bytes[first_zero(bytes)] == 0,
        zero_free(bytes) <==> first_zero(bytes) == bytes.len(),
    decreases bytes.len(),
{
    if bytes.len() > 0 && bytes[0] != 0 {
        let rest = bytes.drop_first();
        lemma_first_zero(rest);
        let p = first_zero(bytes);
        assert forall|i: int| 0 <= i < p implies bytes.take(p)[i] != 0 by {
            if i > 0 {
                assert(rest.take(p - 1)[i - 1] == bytes[i]);
            }
        }
        if p < bytes.len() {
            assert(rest[p - 1] == bytes[p]);
        } else {
            assert(bytes.take(p) =~= bytes);
        }
    }
}

/// A position that holds the first zero byte is `first_zero`.
pub(crate) proof fn lemma_first_zero_unique(bytes: Seq<u8>, p: int)
    requires
        0 <= p <= bytes.len(),
        zero_free(bytes.take(p)),
        p < bytes.len() ==> bytes[p] == 0,
    ensures
        first_zero(bytes) == p,
{
    lemma_first_zero(bytes);
    let q = first_zero(bytes);
    if p < q {
        assert(bytes.take(q)[p] == bytes[p]);
    } else if q < p {
        assert(bytes.take(p)[q] == bytes[q]);
    }
}

/// The error that refuses `bytes` for the zero byte in them.
pub open spec fn zero_byte_error(bytes: Seq<u8>) -> SpecValueError {
    ValueErrorOf::StringWithZeroBytes(NulErrorOf { position: first_zero(bytes) as usize, bytes })
}

/// Turns bytes into a C string. Bytes that hold a zero byte are refused; the error gives the
/// position of the first one and hands the bytes back.
pub fn make_cstring(value: Vec<u8>) -> (result: Result<CString, ValueError>)
    ensures
        match result {
            Ok(text) => text@ == value@ && zero_free(value@),
            Err(error) => error@ == zero_byte_error(value@) && !zero_free(value@),
        },
{
    let mut i: usize = 0;
    while i < value.len()
        invariant
            i <= value.len(),
            zero_free(value@.take(i as int)),
        decreases value.len() - i,
    {
        if value[i] == 0 {
            proof {
                lemma_first_zero_unique(value@, i as int);
                lemma_first_zero(value@);
            }
            return Err(ValueErrorOf::StringWithZeroBytes(NulErrorOf { position: i, bytes: value }));
        }
        i = i + 1;
    }
    assert(value@.take(i as int) =~= value@);
    Ok(CString { bytes: value })
}

} // verus!
