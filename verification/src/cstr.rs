//! Byte strings that can be handed to the analyser as C strings.

use vstd::prelude::*;

verus! {

/// The bytes hold a zero before their end, so they cannot stand for a C
/// string.
#[derive(Debug, Clone, PartialEq, Eq)]
pub struct NulError {
    /// Index of the first zero byte.
    pub position: usize,
    /// The rejected bytes, unchanged.
    pub bytes: Vec<u8>,
}

/// `bytes` hold no zero.
pub open spec fn nul_free(bytes: Seq<u8>) -> bool {
    forall|i: int| 0 <= i < bytes.len() ==> bytes[i] != 0
}

/// `i` is the index of the first zero in `bytes`.
pub open spec fn is_first_nul(bytes: Seq<u8>, i: int) -> bool {
    &&& 0 <= i < bytes.len()
    &&& bytes[i] == 0
    &&& nul_free(bytes.subrange(0, i))
}

/// Index of the first zero in `bytes`, or `None` where there is none.
pub fn find_nul(bytes: &[u8]) -> (r: Option<usize>)
    ensures
        match r {
            Some(i) => is_first_nul(bytes@, i as int),
            None => nul_free(bytes@),
        },
{
    let mut i: usize = 0;
    while i < bytes.len()
        invariant
            0 <= i <= bytes.len(),
            forall|k: int| 0 <= k < i ==> bytes@[k] != 0,
        decreases bytes.len() - i,
    {
        if bytes[i] == 0 {
            assert(nul_free(bytes@.subrange(0, i as int)));
            return Some(i);
        }
        i += 1;
    }
    None
}

/// An owned byte string without a zero byte: what the analyser accepts as one
/// argument once a terminator is appended.
#[derive(Debug)]
pub struct CString {
    bytes: Vec<u8>,
}

impl View for CString {
    type V = Seq<u8>;

    closed spec fn view(&self) -> Seq<u8> {
        self.bytes@
    }
}

impl CString {
    /// The invariant of every value: no zero byte.
    #[verifier::type_invariant]
    pub closed spec fn wf(self) -> bool {
        nul_free(self.bytes@)
    }

    /// Takes `bytes` as a C string. Fails exactly when they hold a zero, and
    /// then reports where the first one is and hands the bytes back.
    pub fn new(bytes: Vec<u8>) -> (r: Result<CString, NulError>)
        ensures
            r is Ok <==> nul_free(bytes@),
            r is Ok ==> r->Ok_0@ == bytes@ && r->Ok_0.wf(),
            r is Err ==> is_first_nul(bytes@, r->Err_0.position as int) && r->Err_0.bytes@ == bytes@,
    {
        match find_nul(bytes.as_slice()) {
            Some(position) => Err(NulError { position, bytes }),
            None => Ok(CString { bytes }),
        }
    }

    /// Takes bytes that end in their only zero, and drops that terminator.
    pub fn from_bytes_with_nul(bytes: &[u8]) -> (r: Option<CString>)
        ensures
            r is Some <==> bytes@.len() > 0 && is_first_nul(bytes@, bytes@.len() - 1),
            r is Some ==> r->0@ == bytes@.drop_last() && r->0.wf(),
    {
        match find_nul(bytes) {
            Some(i) => {
                if i == bytes.len() - 1 {
                    let body = vstd::slice::slice_to_vec(vstd::slice::slice_subrange(bytes, 0, i));
                    assert(body@ =~= bytes@.drop_last());
                    Some(CString { bytes: body })
                } else {
                    proof {
                        if bytes@.len() > 0 && is_first_nul(bytes@, bytes@.len() - 1) {
                            assert(bytes@.subrange(0, bytes@.len() - 1)[i as int] == bytes@[i as int]);
                        }
                    }
                    None
                }
            },
            None => None,
        }
    }

    /// The bytes, without a terminator.
    pub fn as_bytes(&self) -> (r: &[u8])
        ensures
            r@ == self@,
            nul_free(r@),
    {
        proof {
            use_type_invariant(self);
        }
        self.bytes.as_slice()
    }

    /// The bytes with the terminator appended: what the analyser reads.
    pub fn to_bytes_with_nul(&self) -> (r: Vec<u8>)
        ensures
            r@ == self@.push(0),
            is_first_nul(r@, self@.len() as int),
    {
        proof {
            use_type_invariant(self);
        }
        let mut out: Vec<u8> = Vec::new();
        let mut i: usize = 0;
        while i < self.bytes.len()
            invariant
                0 <= i <= self.bytes.len(),
                out@ == self.bytes@.subrange(0, i as int),
            decreases self.bytes.len() - i,
        {
            out.push(self.bytes[i]);
            assert(out@ =~= self.bytes@.subrange(0, i + 1));
            i += 1;
        }
        assert(out@ =~= self.bytes@);
        out.push(0);
        assert(out@.subrange(0, self@.len() as int) =~= self@);
        out
    }

    /// Number of bytes, the terminator not counted.
    pub fn len(&self) -> (r: usize)
        ensures
            r == self@.len(),
    {
        self.bytes.len()
    }
}

/// The number of `args`, as the C integer that the analyser takes beside the
/// argument vector.
pub fn argument_count(args: &[CString]) -> (r: i32)
    requires
        args@.len() <= i32::MAX,
    ensures
        r == args@.len(),
{
    args.len() as i32
}

/// The argument vector for `args`: each argument with its terminator, in the
/// same order.
pub fn argument_vector(args: &[CString]) -> (r: Vec<Vec<u8>>)
    ensures
        r@.len() == args@.len(),
        forall|i: int| 0 <= i < args@.len() ==> (#[trigger] r@[i])@ == args@[i]@.push(0),
{
    let mut out: Vec<Vec<u8>> = Vec::new();
    let mut i: usize = 0;
    while i < args.len()
        invariant
            0 <= i <= args.len(),
            out@.len() == i,
            forall|k: int| 0 <= k < i ==> (#[trigger] out@[k])@ == args@[k]@.push(0),
        decreases args.len() - i,
    {
        out.push(args[i].to_bytes_with_nul());
        i += 1;
    }
    out
}

} // verus!
