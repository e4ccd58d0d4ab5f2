use vstd::prelude::*;

verus! {

use vstd::slice::{slice_subrange, slice_to_vec};

/// The byte width of an identity.
pub const IDENTITY_LEN: usize = 32;

/// An opaque fixed-width principal identity: an owner, a value-unit mint, or
/// an external custody location. Identities carry no internal structure; the
/// vault only ever compares them for bit-equality.
#[derive(Clone, Debug, PartialEq, Eq)]
pub struct Identity {
    pub bytes: Vec<u8>,
}

impl View for Identity {
    type V = Seq<u8>;

    open spec fn view(&self) -> Seq<u8> {
        self.bytes@
    }
}

impl Identity {
    /// A well-formed identity holds exactly 32 bytes.
    pub open spec fn wf(&self) -> bool {
        self@.len() == IDENTITY_LEN
    }

    /// Builds an identity from exactly 32 bytes; rejects any other width.
    pub fn new(bytes: Vec<u8>) -> (r: Option<Identity>)
        ensures
            bytes@.len() == IDENTITY_LEN ==> (r matches Some(id) && id@ == bytes@ && id.wf()),
            bytes@.len() != IDENTITY_LEN ==> r is None,
    {
        if bytes.len() == IDENTITY_LEN {
            Some(Identity { bytes })
        } else {
            None
        }
    }

    /// The identity whose 32 bytes all hold the given value; the all-zero
    /// form stands for "not yet bound".
    pub fn filled(b: u8) -> (r: Identity)
        ensures
            r.wf(),
            r@ == Seq::new(IDENTITY_LEN as nat, |i: int| b),
    {
        Identity { bytes: vec![b; IDENTITY_LEN] }
    }

    /// Copies the 32 bytes read from `data` starting at `start`.
    pub fn read_from(data: &[u8], start: usize) -> (r: Identity)
        requires
            start + IDENTITY_LEN <= data@.len(),
        ensures
            r.wf(),
            r@ == data@.subrange(start as int, start + IDENTITY_LEN),
    {
        let n = data.len();
        proof {
            assert(start + IDENTITY_LEN <= n);
        }
        Identity { bytes: slice_to_vec(slice_subrange(data, start, start + IDENTITY_LEN)) }
    }

    /// An owned copy with the same bytes.
    pub fn copied(&self) -> (r: Identity)
        ensures
            r@ == self@,
    {
        Identity { bytes: slice_to_vec(self.bytes.as_slice()) }
    }

    /// Bit-equality of two identities.
    pub fn same_as(&self, other: &Identity) -> (r: bool)
        ensures
            r == (self@ == other@),
    {
        if self.bytes.len() != other.bytes.len() {
            return false;
        }
        let n = self.bytes.len();
        let mut i: usize = 0;
        while i < n
            invariant
                i <= n,
                n == self@.len(),
                n == other@.len(),
                forall|j: int| 0 <= j < i ==> self@[j] == other@[j],
            decreases n - i,
        {
            if self.bytes[i] != other.bytes[i] {
                return false;
            }
            i = i + 1;
        }
        proof {
            assert(self@ =~= other@);
        }
        true
    }
}

} // verus!
