//! The claim registry: a map from proof fingerprints to their owner and the
//! height at which that ownership was established, with its three
//! state transitions.
use vstd::prelude::*;

use crate::bounded::BoundedProof;

verus! {

/// An authenticated actor.
pub type AccountId = u64;

/// A position in the host's ordered sequence of state transitions.
pub type BlockNumber = u64;

/// Who holds a proof, and since which height.
#[derive(Clone, Copy, Debug, PartialEq, Eq, Structural)]
pub struct Claim {
    pub owner: AccountId,
    pub registered_at: BlockNumber,
}

/// Why a transition was refused. A refused transition changes nothing.
#[derive(Clone, Copy, Debug, PartialEq, Eq, Structural)]
pub enum Error {
    /// The proof is already claimed.
    ProofAlreadyClaimed,
    /// No claim exists for the proof.
    NoSuchProof,
    /// The caller does not own the claim.
    NotProofOwner,
}

/// The notification a successful transition hands to the host.
#[derive(Debug, PartialEq, Eq)]
pub enum Event<const MAX_BYTES_IN_HASH: u32> {
    /// A claim was created: owner, proof.
    ClaimCreated(AccountId, BoundedProof<MAX_BYTES_IN_HASH>),
    /// A claim was revoked: former owner, proof.
    ClaimRevoked(AccountId, BoundedProof<MAX_BYTES_IN_HASH>),
    /// A claim changed hands: sender, receiver, proof.
    ClaimTransmit(AccountId, AccountId, BoundedProof<MAX_BYTES_IN_HASH>),
}

/// The mathematical content of an [`Event`].
pub enum EventView {
    /// Owner, proof bytes.
    ClaimCreated(AccountId, Seq<u8>),
    /// Former owner, proof bytes.
    ClaimRevoked(AccountId, Seq<u8>),
    /// Sender, receiver, proof bytes.
    ClaimTransmit(AccountId, AccountId, Seq<u8>),
}

impl<const MAX_BYTES_IN_HASH: u32> View for Event<MAX_BYTES_IN_HASH> {
    type V = EventView;

    open spec fn view(&self) -> EventView {
        match self {
            Event::ClaimCreated(who, p) => EventView::ClaimCreated(*who, p@),
            Event::ClaimRevoked(who, p) => EventView::ClaimRevoked(*who, p@),
            Event::ClaimTransmit(from, to, p) => EventView::ClaimTransmit(*from, *to, p@),
        }
    }
}

/// The registry's abstract state: each live proof with its claim.
pub type ClaimMap = Map<Seq<u8>, Claim>;

/// What a transition returns, seen through the event's view.
pub open spec fn outcome<const MAX_BYTES_IN_HASH: u32>(
    r: Result<Event<MAX_BYTES_IN_HASH>, Error>,
) -> Result<EventView, Error> {
    match r {
        Ok(e) => Ok(e@),
        Err(e) => Err(e),
    }
}

/// Creating a claim for `proof` by `sender` at height `now`: the claims
/// afterwards and the outcome.
pub open spec fn create_step(
    claims: ClaimMap,
    sender: AccountId,
    proof: Seq<u8>,
    now: BlockNumber,
) -> (ClaimMap, Result<EventView, Error>) {
    if claims.contains_key(proof) {
        (claims, Err(Error::ProofAlreadyClaimed))
    } else {
        (
            claims.insert(proof, Claim { owner: sender, registered_at: now }),
            Ok(EventView::ClaimCreated(sender, proof)),
        )
    }
}

/// The error that keeps `sender` from acting on the claim for `proof`, if any.
pub open spec fn ownership_error(
    claims: ClaimMap,
    sender: AccountId,
    proof: Seq<u8>,
) -> Option<Error> {
    if !claims.contains_key(proof) {
        Some(Error::NoSuchProof)
    } else if claims[proof].owner != sender {
        Some(Error::NotProofOwner)
    } else {
        None
    }
}

/// Revoking the claim for `proof` by `sender`: the claims afterwards and the
/// outcome.
pub open spec fn revoke_step(
    claims: ClaimMap,
    sender: AccountId,
    proof: Seq<u8>,
) -> (ClaimMap, Result<EventView, Error>) {
    match ownership_error(claims, sender, proof) {
        Some(e) => (claims, Err(e)),
        None => (claims.remove(proof), Ok(EventView::ClaimRevoked(sender, proof))),
    }
}

/// Handing the claim for `proof` from `sender` to `receiver` at height `now`:
/// the claims afterwards and the outcome.
pub open spec fn transmit_step(
    claims: ClaimMap,
    sender: AccountId,
    proof: Seq<u8>,
    receiver: AccountId,
    now: BlockNumber,
) -> (ClaimMap, Result<EventView, Error>) {
    match ownership_error(claims, sender, proof) {
        Some(e) => (claims, Err(e)),
        None => (
            claims.insert(proof, Claim { owner: receiver, registered_at: now }),
            Ok(EventView::ClaimTransmit(sender, receiver, proof)),
        ),
    }
}

/// Whether two byte vectors hold the same bytes.
fn same_bytes(a: &Vec<u8>, b: &Vec<u8>) -> (r: bool)
    ensures
        r == (a@ == b@),
{
    if a.len() != b.len() {
        return false;
    }
    let mut i: usize = 0;
    while i < a.len()
        invariant
            a@.len() == b@.len(),
            i <= a@.len(),
            forall|j: int| 0 <= j < i ==> a@[j] == b@[j],
        decreases a@.len() - i,
    {
        if a[i] != b[i] {
            return false;
        }
        i = i + 1;
    }
    assert(a@ =~= b@);
    true
}

/// The claim registry for proofs of at most `MAX_BYTES_IN_HASH` bytes.
///
/// Entry `i` of `proofs` is claimed as entry `i` of `claims` says; no proof
/// appears twice.
pub struct Pallet<const MAX_BYTES_IN_HASH: u32> {
    proofs: Vec<BoundedProof<MAX_BYTES_IN_HASH>>,
    claims: Vec<Claim>,
    model: Ghost<ClaimMap>,
}

impl<const MAX_BYTES_IN_HASH: u32> View for Pallet<MAX_BYTES_IN_HASH> {
    type V = ClaimMap;

    closed spec fn view(&self) -> ClaimMap {
        self.model@
    }
}

impl<const MAX_BYTES_IN_HASH: u32> Pallet<MAX_BYTES_IN_HASH> {
    /// The stored entries agree with the abstract map, and keys are unique.
    pub closed spec fn wf(&self) -> bool {
        &&& self.proofs@.len() == self.claims@.len()
        &&& forall|i: int, j: int|
            0 <= i < j < self.proofs@.len() ==> self.proofs@[i]@ != self.proofs@[j]@
        &&& forall|i: int|
            0 <= i < self.proofs@.len() ==> {
                &&& self.model@.contains_key(#[trigger] self.proofs@[i]@)
                &&& self.model@[self.proofs@[i]@] == self.claims@[i]
            }
        &&& forall|k: Seq<u8>|
            #[trigger] self.model@.contains_key(k) ==> exists|i: int|
                0 <= i < self.proofs@.len() && #[trigger] self.proofs@[i]@ == k
    }

    /// An empty registry.
    pub fn new() -> (r: Self)
        ensures
            r.wf(),
            r@ == ClaimMap::empty(),
    {
        Pallet { proofs: Vec::new(), claims: Vec::new(), model: Ghost(ClaimMap::empty()) }
    }

    /// The index at which `proof` is stored, if it is.
    fn find(&self, proof: &BoundedProof<MAX_BYTES_IN_HASH>) -> (r: Option<usize>)
        requires
            self.wf(),
        ensures
            r matches Some(i) ==> i < self.proofs@.len() && self.proofs@[i as int]@ == proof@,
            r is None <==> !self@.contains_key(proof@),
    {
        let mut i: usize = 0;
        while i < self.proofs.len()
            invariant
                self.wf(),
                i <= self.proofs@.len(),
                forall|j: int| 0 <= j < i ==> self.proofs@[j]@ != proof@,
            decreases self.proofs@.len() - i,
        {
            if same_bytes(self.proofs[i].as_bytes(), proof.as_bytes()) {
                return Some(i);
            }
            i = i + 1;
        }
        None
    }

    /// Records `sender` as the holder of `proof` since height `current_block`.
    ///
    /// Fails with `ProofAlreadyClaimed` when `proof` is already held; the
    /// registry is then unchanged.
    pub fn create_claim(
        &mut self,
        sender: AccountId,
        proof: BoundedProof<MAX_BYTES_IN_HASH>,
        current_block: BlockNumber,
    ) -> (r: Result<Event<MAX_BYTES_IN_HASH>, Error>)
        requires
            old(self).wf(),
        ensures
            final(self).wf(),
            (final(self)@, outcome(r)) == create_step(old(self)@, sender, proof@, current_block),
    {
        if self.find(&proof).is_some() {
            return Err(Error::ProofAlreadyClaimed);
        }
        let claim = Claim { owner: sender, registered_at: current_block };
        let ghost old_proofs = self.proofs@;
        self.proofs.push(proof.clone());
        self.claims.push(claim);
        self.model = Ghost(self.model@.insert(proof@, claim));
        assert forall|k: Seq<u8>| #[trigger] self.model@.contains_key(k) implies exists|j: int|
            0 <= j < self.proofs@.len() && #[trigger] self.proofs@[j]@ == k by {
            if k == proof@ {
                assert(self.proofs@[old_proofs.len() as int]@ == k);
            } else {
                let j = choose|j: int| 0 <= j < old_proofs.len() && #[trigger] old_proofs[j]@ == k;
                assert(self.proofs@[j]@ == k);
            }
        }
        Ok(Event::ClaimCreated(sender, proof))
    }
    /// Removes the claim for `proof`, which `sender` must hold.
    ///
    /// Fails with `NoSuchProof` when nobody holds `proof`, and with
    /// `NotProofOwner` when someone other than `sender` holds it; the registry
    /// is then unchanged. A second revocation therefore fails.
    pub fn revoke_claim(
        &mut self,
        sender: AccountId,
        proof: BoundedProof<MAX_BYTES_IN_HASH>,
    ) -> (r: Result<Event<MAX_BYTES_IN_HASH>, Error>)
        requires
            old(self).wf(),
        ensures
            final(self).wf(),
            (final(self)@, outcome(r)) == revoke_step(old(self)@, sender, proof@),
    {
        let i = match self.find(&proof) {
            Some(i) => i,
            None => return Err(Error::NoSuchProof),
        };
        if self.claims[i].owner != sender {
            return Err(Error::NotProofOwner);
        }
        let ghost old_proofs = self.proofs@;
        self.proofs.remove(i);
        self.claims.remove(i);
        self.model = Ghost(self.model@.remove(proof@));
        assert forall|k: Seq<u8>| #[trigger] self.model@.contains_key(k) implies exists|j: int|
            0 <= j < self.proofs@.len() && #[trigger] self.proofs@[j]@ == k by {
            let j = choose|j: int| 0 <= j < old_proofs.len() && #[trigger] old_proofs[j]@ == k;
            if j < i {
                assert(self.proofs@[j]@ == k);
            } else {
                assert(self.proofs@[j - 1]@ == k);
            }
        }
        Ok(Event::ClaimRevoked(sender, proof))
    }

    /// Hands the claim for `proof` from `sender` to `receiver`, re-stamped
    /// with height `current_block`. The entry is updated in place.
    ///
    /// Fails with `NoSuchProof` when nobody holds `proof`, and with
    /// `NotProofOwner` when someone other than `sender` holds it; the registry
    /// is then unchanged.
    pub fn transmit_claim(
        &mut self,
        sender: AccountId,
        proof: BoundedProof<MAX_BYTES_IN_HASH>,
        receiver: AccountId,
        current_block: BlockNumber,
    ) -> (r: Result<Event<MAX_BYTES_IN_HASH>, Error>)
        requires
            old(self).wf(),
        ensures
            final(self).wf(),
            (final(self)@, outcome(r)) == transmit_step(
                old(self)@,
                sender,
                proof@,
                receiver,
                current_block,
            ),
    {
        let i = match self.find(&proof) {
            Some(i) => i,
            None => return Err(Error::NoSuchProof),
        };
        if self.claims[i].owner != sender {
            return Err(Error::NotProofOwner);
        }
        let claim = Claim { owner: receiver, registered_at: current_block };
        self.claims.set(i, claim);
        self.model = Ghost(self.model@.insert(proof@, claim));
        Ok(Event::ClaimTransmit(sender, receiver, proof))
    }

    /// The claim on `proof`, if one is live.
    pub fn proofs(&self, proof: &BoundedProof<MAX_BYTES_IN_HASH>) -> (r: Option<Claim>)
        requires
            self.wf(),
        ensures
            r == (if self@.contains_key(proof@) {
                Some(self@[proof@])
            } else {
                None
            }),
    {
        match self.find(proof) {
            Some(i) => Some(self.claims[i]),
            None => None,
        }
    }

    /// Whether a claim on `proof` is live.
    pub fn contains_key(&self, proof: &BoundedProof<MAX_BYTES_IN_HASH>) -> (r: bool)
        requires
            self.wf(),
        ensures
            r == self@.contains_key(proof@),
    {
        self.find(proof).is_some()
    }
}

} // verus!
