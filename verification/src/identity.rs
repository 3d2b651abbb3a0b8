use vstd::prelude::*;

verus! {

/// A 32-byte public key naming a participant: a record owner, a post author,
/// a message sender or recipient, or the program a sibling instruction
/// targets. The host's capability oracle attests which identities have proven
/// control of their signing key for the current transaction.
#[derive(Debug, PartialEq, Eq)]
pub struct Identity {
    pub bytes: Vec<u8>,
}

impl View for Identity {
    type V = Seq<u8>;

    open spec fn view(&self) -> Seq<u8> {
        self.bytes@
    }
}

impl Identity {
    /// An identity is exactly 32 key bytes.
    pub open spec fn wf(&self) -> bool {
        self@.len() == 32
    }

    /// Byte-for-byte copy of the key.
    pub fn duplicate(&self) -> (r: Identity)
        ensures
            r@ == self@,
    {
        let v = self.bytes.clone();
        proof {
            assert(v@ =~= self@);
        }
        Identity { bytes: v }
    }
}

/// Byte-for-byte equality of two byte strings.
pub fn bytes_eq(a: &Vec<u8>, b: &Vec<u8>) -> (r: bool)
    ensures
        r == (a@ == b@),
{
    if a.len() != b.len() {
        return false;
    }
    let mut i: usize = 0;
    while i < a.len()
        invariant
            i <= a@.len(),
            a@.len() == b@.len(),
            forall|k: int| 0 <= k < i ==> a@[k] == b@[k],
        decreases a@.len() - i,
    {
        if a[i] != b[i] {
            return false;
        }
        i += 1;
    }
    proof {
        assert(a@ =~= b@);
    }
    true
}

/// Byte-for-byte equality of two identities.
pub fn identity_eq(a: &Identity, b: &Identity) -> (r: bool)
    ensures
        r == (a@ == b@),
{
    bytes_eq(&a.bytes, &b.bytes)
}

} // verus!
