//! Identities of the primary and of the workers of a node.

use vstd::prelude::*;

verus! {

/// Number of bytes in a public network key, and so in an identity.
pub const PEER_ID_LENGTH: usize = 32;

/// Whether two keys or identities hold the same 32 bytes.
fn same_bytes(a: &[u8; 32], b: &[u8; 32]) -> (same: bool)
    ensures
        same == (*a == *b),
{
    let mut i: usize = 0;
    while i < 32
        invariant
            i <= 32,
            forall|j: int| 0 <= j < i ==> a@[j] == b@[j],
        decreases 32 - i,
    {
        if a[i] != b[i] {
            return false;
        }
        i += 1;
    }
    assert(*a =~= *b);
    true
}

/// The bytes of a public network key.
#[derive(Clone, Copy, Debug, Eq, Hash)]
pub struct NetworkPublicKey(pub [u8; 32]);

impl PartialEq for NetworkPublicKey {
    fn eq(&self, other: &NetworkPublicKey) -> (equal: bool) {
        same_bytes(&self.0, &other.0)
    }
}

impl vstd::std_specs::cmp::PartialEqSpecImpl for NetworkPublicKey {
    open spec fn obeys_eq_spec() -> bool {
        true
    }

    open spec fn eq_spec(&self, other: &NetworkPublicKey) -> bool {
        *self == *other
    }
}

impl View for NetworkPublicKey {
    type V = Seq<u8>;

    open spec fn view(&self) -> Seq<u8> {
        self.0@
    }
}

/// The network key pair of a node, as far as the registry reads it: the
/// public half, from which the node's identity is derived.
#[derive(Clone, Copy, Debug)]
pub struct NetworkKeyPair {
    public: NetworkPublicKey,
}

impl NetworkKeyPair {
    /// The public key of the pair, in specifications.
    pub closed spec fn public_key(&self) -> NetworkPublicKey {
        self.public
    }

    /// A key pair with the given public half.
    pub fn from_public(public: NetworkPublicKey) -> (pair: NetworkKeyPair)
        ensures
            pair.public_key() == public,
    {
        NetworkKeyPair { public }
    }

    /// The public half of the pair.
    pub fn public(&self) -> (key: &NetworkPublicKey)
        ensures
            *key == self.public_key(),
    {
        &self.public
    }
}

/// The identity of a primary or a worker: the 32 bytes of its public network
/// key, or 32 zero bytes for a placeholder.
#[derive(Clone, Copy, Debug, Eq, Hash)]
pub struct PeerId(pub [u8; 32]);

impl PartialEq for PeerId {
    fn eq(&self, other: &PeerId) -> (equal: bool) {
        same_bytes(&self.0, &other.0)
    }
}

impl vstd::std_specs::cmp::PartialEqSpecImpl for PeerId {
    open spec fn obeys_eq_spec() -> bool {
        true
    }

    open spec fn eq_spec(&self, other: &PeerId) -> bool {
        *self == *other
    }
}

impl View for PeerId {
    type V = Seq<u8>;

    open spec fn view(&self) -> Seq<u8> {
        self.0@
    }
}

/// The bytes of the placeholder identity.
pub open spec fn zero_bytes() -> Seq<u8> {
    Seq::new(32, |i: int| 0u8)
}

impl PeerId {
    /// The identity of the holder of `key`: the bytes of the key.
    pub fn from_public_key(key: &NetworkPublicKey) -> (id: PeerId)
        ensures
            id@ == key@,
            id.0 == key.0,
    {
        PeerId(key.0)
    }

    /// Whether this is the placeholder identity.
    pub fn is_empty(&self) -> (empty: bool)
        ensures
            empty == (self@ == zero_bytes()),
    {
        let mut i: usize = 0;
        while i < 32
            invariant
                i <= 32,
                forall|j: int| 0 <= j < i ==> self.0@[j] == 0u8,
            decreases 32 - i,
        {
            if self.0[i] != 0 {
                return false;
            }
            i += 1;
        }
        assert(self@ =~= zero_bytes());
        true
    }

    /// Two identities with the same bytes are the same identity.
    pub proof fn lemma_view_injective(a: PeerId, b: PeerId)
        requires
            a@ == b@,
        ensures
            a == b,
    {
        assert(a.0 =~= b.0);
    }
}

/// The placeholder identity of a client that has no key yet: 32 zero bytes.
pub fn empty_peer_id() -> (id: PeerId)
    ensures
        id@ == zero_bytes(),
        id@.len() == 32,
        forall|i: int| 0 <= i < 32 ==> id@[i] == 0u8,
{
    let id = PeerId([0u8; 32]);
    assert(id@ =~= zero_bytes());
    id
}

} // verus!
