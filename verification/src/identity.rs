//! The 32-byte identities the host runtime names accounts with, and the
//! record handles it presents to the engine on every command.

use vstd::prelude::*;

verus! {

/// Number of bytes in an identity.
pub const IDENTITY_LEN: usize = 32;

/// The all-zero identity, the content of every identity field of a record
/// slot the host has freshly allocated.
pub open spec fn zero_identity_seq() -> Seq<u8> {
    Seq::new(IDENTITY_LEN as nat, |i: int| 0u8)
}

/// A 32-byte identity: the stable name of an account, a program or a derived
/// delegate at the host boundary.
#[derive(Debug)]
pub struct Identity {
    bytes: Vec<u8>,
}

impl View for Identity {
    type V = Seq<u8>;

    closed spec fn view(&self) -> Seq<u8> {
        self.bytes@
    }
}

impl Identity {
    #[verifier::type_invariant]
    spec fn type_inv(self) -> bool {
        self.bytes@.len() == IDENTITY_LEN
    }

    /// Wraps exactly 32 bytes as an identity; any other length is refused.
    pub fn new(bytes: Vec<u8>) -> (r: Option<Identity>)
        ensures
            match r {
                Some(id) => bytes@.len() == IDENTITY_LEN && id@ == bytes@,
                None => bytes@.len() != IDENTITY_LEN,
            },
    {
        if bytes.len() == IDENTITY_LEN {
            Some(Identity { bytes })
        } else {
            None
        }
    }

    /// The all-zero identity.
    pub fn zero() -> (r: Identity)
        ensures
            r@ == zero_identity_seq(),
    {
        let mut bytes: Vec<u8> = Vec::new();
        let mut i: usize = 0;
        while i < IDENTITY_LEN
            invariant
                i <= IDENTITY_LEN,
                bytes@.len() == i,
                forall|j: int| 0 <= j < i ==> bytes@[j] == 0u8,
            decreases IDENTITY_LEN - i,
        {
            bytes.push(0u8);
            i = i + 1;
        }
        proof {
            assert(bytes@ =~= zero_identity_seq());
        }
        Identity { bytes }
    }

    /// The identity's bytes, as a fresh vector.
    pub fn to_vec(&self) -> (r: Vec<u8>)
        ensures
            r@ == self@,
            r@.len() == IDENTITY_LEN,
    {
        proof {
            use_type_invariant(self);
        }
        clone_bytes(&self.bytes)
    }

    /// A second identity with the same bytes.
    pub fn dup(&self) -> (r: Identity)
        ensures
            r@ == self@,
    {
        proof {
            use_type_invariant(self);
        }
        Identity { bytes: clone_bytes(&self.bytes) }
    }

}

impl PartialEq for Identity {
    fn eq(&self, other: &Identity) -> (r: bool) {
        proof {
            use_type_invariant(self);
            use_type_invariant(other);
        }
        eq_bytes(&self.bytes, &other.bytes)
    }
}

impl vstd::std_specs::cmp::PartialEqSpecImpl for Identity {
    open spec fn obeys_eq_spec() -> bool {
        true
    }

    open spec fn eq_spec(&self, other: &Identity) -> bool {
        self@ == other@
    }
}

/// A fresh byte vector with the same content.
pub fn clone_bytes(v: &Vec<u8>) -> (r: Vec<u8>)
    ensures
        r@ == v@,
{
    let r = v.clone();
    proof {
        assert forall|i: int| 0 <= i < v@.len() implies r@[i] == v@[i] by {
            assert(cloned::<u8>(v@[i], r@[i]));
        }
        assert(r@ =~= v@);
    }
    r
}

/// Whether two byte vectors hold the same content.
pub fn eq_bytes(a: &Vec<u8>, b: &Vec<u8>) -> (r: bool)
    ensures
        r == (a@ == b@),
{
    if a.len() != b.len() {
        proof {
            assert(a@.len() != b@.len());
        }
        return false;
    }
    let n: usize = a.len();
    let mut i: usize = 0;
    while i < n
        invariant
            i <= n,
            n == a@.len(),
            n == b@.len(),
            forall|j: int| 0 <= j < i ==> a@[j] == b@[j],
        decreases n - i,
    {
        if a[i] != b[i] {
            return false;
        }
        i = i + 1;
    }
    proof {
        assert(a@ =~= b@);
    }
    true
}

/// A record handle, as the host runtime presents it on each command: the
/// slot's own address, the owner tag of the program the slot is bound to,
/// whether the invocation carries this identity's signature, and the slot's
/// raw byte storage.
#[derive(Debug)]
pub struct RecordHandle {
    /// The address of the record slot.
    pub key: Identity,
    /// The program the slot is bound to.
    pub owner: Identity,
    /// Whether the command carries proof of authorization by `key`.
    pub is_signer: bool,
    /// The slot's raw byte storage.
    pub data: Vec<u8>,
}

impl RecordHandle {
    /// A handle with the same key, owner tag, signer flag and storage.
    pub fn dup(&self) -> (r: RecordHandle)
        ensures
            r.key@ == self.key@,
            r.owner@ == self.owner@,
            r.is_signer == self.is_signer,
            r.data@ == self.data@,
    {
        RecordHandle {
            key: self.key.dup(),
            owner: self.owner.dup(),
            is_signer: self.is_signer,
            data: clone_bytes(&self.data),
        }
    }
}

} // verus!
