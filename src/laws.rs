//! Laws of the registry's transitions, stated over the abstract claim map.
use vstd::prelude::*;

use crate::registry::{
    create_step, revoke_step, transmit_step, AccountId, BlockNumber, Claim, ClaimMap, Error,
    EventView,
};

verus! {

/// Creating the same proof twice in a row: the second attempt fails with
/// `ProofAlreadyClaimed` and leaves the claims as the first attempt left them.
pub proof fn lemma_create_twice(
    claims: ClaimMap,
    first: AccountId,
    second: AccountId,
    proof: Seq<u8>,
    h1: BlockNumber,
    h2: BlockNumber,
)
    ensures
        ({
            let after_first = create_step(claims, first, proof, h1).0;
            create_step(after_first, second, proof, h2) == (
                after_first,
                Err::<EventView, Error>(Error::ProofAlreadyClaimed),
            )
        }),
{
}

/// Revoking or transmitting a proof that nobody holds fails with
/// `NoSuchProof` and changes nothing.
pub proof fn lemma_absent_proof(
    claims: ClaimMap,
    sender: AccountId,
    proof: Seq<u8>,
    receiver: AccountId,
    now: BlockNumber,
)
    requires
        !claims.contains_key(proof),
    ensures
        revoke_step(claims, sender, proof) == (claims, Err::<EventView, Error>(Error::NoSuchProof)),
        transmit_step(claims, sender, proof, receiver, now) == (
            claims,
            Err::<EventView, Error>(Error::NoSuchProof),
        ),
{
}

/// Revoking or transmitting a proof held by someone else fails with
/// `NotProofOwner` and changes nothing.
pub proof fn lemma_not_owner(
    claims: ClaimMap,
    intruder: AccountId,
    proof: Seq<u8>,
    receiver: AccountId,
    now: BlockNumber,
)
    requires
        claims.contains_key(proof),
        claims[proof].owner != intruder,
    ensures
        revoke_step(claims, intruder, proof) == (
            claims,
            Err::<EventView, Error>(Error::NotProofOwner),
        ),
        transmit_step(claims, intruder, proof, receiver, now) == (
            claims,
            Err::<EventView, Error>(Error::NotProofOwner),
        ),
{
}

/// Creating a proof and then revoking it as the same actor leaves the proof
/// absent; anyone may then create it afresh and becomes its owner, with no
/// trace of the earlier holder.
///
/// This holds unless the proof was already held by another actor at the
/// start, in which case neither the creation nor the revocation succeeds.
pub proof fn lemma_create_revoke_recreate(
    claims: ClaimMap,
    creator: AccountId,
    proof: Seq<u8>,
    h: BlockNumber,
    newcomer: AccountId,
    h_new: BlockNumber,
)
    requires
        claims.contains_key(proof) ==> claims[proof].owner == creator,
    ensures
        ({
            let created = create_step(claims, creator, proof, h).0;
            let revoked = revoke_step(created, creator, proof).0;
            let recreated = create_step(revoked, newcomer, proof, h_new);
            &&& revoke_step(created, creator, proof).1 == Ok::<EventView, Error>(
                EventView::ClaimRevoked(creator, proof),
            )
            &&& !revoked.contains_key(proof)
            &&& recreated.1 == Ok::<EventView, Error>(EventView::ClaimCreated(newcomer, proof))
            &&& recreated.0[proof] == Claim { owner: newcomer, registered_at: h_new }
        }),
{
}

/// A creation followed by two hand-overs, A to B and B to C, leaves C as the
/// owner since the height of the second hand-over, and A can then neither
/// revoke nor transmit the proof.
///
/// This holds unless the proof was held by someone other than A at the
/// start, or C is A.
pub proof fn lemma_transfer_chain(
    claims: ClaimMap,
    a: AccountId,
    b: AccountId,
    c: AccountId,
    proof: Seq<u8>,
    h0: BlockNumber,
    h1: BlockNumber,
    h2: BlockNumber,
    receiver: AccountId,
    h3: BlockNumber,
)
    requires
        claims.contains_key(proof) ==> claims[proof].owner == a,
        c != a,
    ensures
        ({
            let created = create_step(claims, a, proof, h0).0;
            let to_b = transmit_step(created, a, proof, b, h1);
            let to_c = transmit_step(to_b.0, b, proof, c, h2);
            let last = to_c.0;
            &&& to_b.1 == Ok::<EventView, Error>(EventView::ClaimTransmit(a, b, proof))
            &&& to_c.1 == Ok::<EventView, Error>(EventView::ClaimTransmit(b, c, proof))
            &&& last.contains_key(proof)
            &&& last[proof] == Claim { owner: c, registered_at: h2 }
            &&& revoke_step(last, a, proof) == (last, Err::<EventView, Error>(Error::NotProofOwner))
            &&& transmit_step(last, a, proof, receiver, h3) == (
                last,
                Err::<EventView, Error>(Error::NotProofOwner),
            )
        }),
{
}

} // verus!
