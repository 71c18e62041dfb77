//! Identifiers that the scheduler carries around: hashes, collator and peer
//! identities, and the description of one advertised collation.
use vstd::prelude::*;

verus! {

/// Identifier of a para (a sub-chain with its own candidates).
pub type ParaId = u32;

/// A 32-byte hash, such as a relay-chain block hash.
#[derive(Clone, Copy, Debug, PartialEq, Eq)]
pub struct Hash(pub [u8; 32]);

/// The hash of a candidate block.
#[derive(Clone, Copy, Debug, PartialEq, Eq)]
pub struct CandidateHash(pub Hash);

/// The public key that identifies a collator.
#[derive(Clone, Copy, Debug, PartialEq, Eq)]
pub struct CollatorId(pub [u8; 32]);

/// The network identity of a peer.
#[derive(Clone, Copy, Debug, PartialEq, Eq)]
pub struct PeerId(pub [u8; 32]);

/// Whether two byte arrays hold the same bytes.
pub fn bytes_eq(a: &[u8; 32], b: &[u8; 32]) -> (r: bool)
    ensures
        r == (*a == *b),
{
    let mut i: usize = 0;
    while i < 32
        invariant
            0 <= i <= 32,
            a@.len() == 32,
            b@.len() == 32,
            forall|j: int| 0 <= j < i ==> a@[j] == b@[j],
        decreases 32 - i,
    {
        if a[i] != b[i] {
            assert(a@[i as int] != b@[i as int]);
            return false;
        }
        i = i + 1;
    }
    assert(*a =~= *b);
    true
}

impl Hash {
    /// The hash whose 32 bytes all equal `b`.
    pub fn repeat_byte(b: u8) -> (r: Hash)
        ensures
            forall|i: int| 0 <= i < 32 ==> r.0[i] == b,
    {
        Hash([b; 32])
    }

    pub fn same_as(&self, other: &Hash) -> (r: bool)
        ensures
            r == (*self == *other),
    {
        bytes_eq(&self.0, &other.0)
    }
}

impl CandidateHash {
    pub fn same_as(&self, other: &CandidateHash) -> (r: bool)
        ensures
            r == (*self == *other),
    {
        self.0.same_as(&other.0)
    }
}

impl CollatorId {
    /// The collator identified by the raw public key `bytes`.
    pub fn from_raw(bytes: [u8; 32]) -> (r: CollatorId)
        ensures
            r.0 == bytes,
    {
        CollatorId(bytes)
    }

    pub fn same_as(&self, other: &CollatorId) -> (r: bool)
        ensures
            r == (*self == *other),
    {
        bytes_eq(&self.0, &other.0)
    }
}

impl PeerId {
    /// The peer identified by the raw bytes `bytes`.
    pub fn from_raw(bytes: [u8; 32]) -> (r: PeerId)
        ensures
            r.0 == bytes,
    {
        PeerId(bytes)
    }
}

/// What is known of a candidate before it is fetched, under asynchronous backing.
#[derive(Clone, Copy, Debug, PartialEq, Eq)]
pub struct ProspectiveCandidate {
    pub candidate_hash: CandidateHash,
    pub parent_head_data_hash: Hash,
}

/// A collation that was advertised and is not fetched yet.
#[derive(Clone, Copy, Debug, PartialEq, Eq)]
pub struct PendingCollation {
    pub relay_parent: Hash,
    pub para_id: ParaId,
    pub peer_id: PeerId,
    pub prospective_candidate: Option<ProspectiveCandidate>,
}

impl PendingCollation {
    pub fn new(
        relay_parent: Hash,
        para_id: ParaId,
        peer_id: &PeerId,
        prospective_candidate: Option<ProspectiveCandidate>,
    ) -> (r: PendingCollation)
        ensures
            r.relay_parent == relay_parent,
            r.para_id == para_id,
            r.peer_id == *peer_id,
            r.prospective_candidate == prospective_candidate,
    {
        PendingCollation { relay_parent, para_id, peer_id: *peer_id, prospective_candidate }
    }
}

/// The relay parent's support for prospective parachains.
#[derive(Clone, Copy, Debug, PartialEq, Eq)]
pub enum ProspectiveParachainsMode {
    Disabled,
    Enabled { max_candidate_depth: usize, allowed_ancestry_len: usize },
}

/// A waiting collation, with the collator that advertised it.
pub type WaitingItem = (PendingCollation, CollatorId);

/// Identity of a fetch: the collator, and the candidate where one is known.
pub type FetchId = (CollatorId, Option<CandidateHash>);

/// The identity under which the fetch of `item` is tracked.
pub open spec fn fetch_id_of(item: WaitingItem) -> FetchId {
    (
        item.1,
        match item.0.prospective_candidate {
            Some(pc) => Some(pc.candidate_hash),
            None => None,
        },
    )
}

/// Whether two fetch identities are equal.
pub fn fetch_id_eq(a: &FetchId, b: &FetchId) -> (r: bool)
    ensures
        r == (*a == *b),
{
    if !a.0.same_as(&b.0) {
        return false;
    }
    match (&a.1, &b.1) {
        (Some(x), Some(y)) => x.same_as(y),
        (None, None) => true,
        _ => false,
    }
}

} // verus!
