use pallet_poe::{BoundedProof, Claim, Error, Event, Pallet};

type Proof = BoundedProof<32>;

const ALICE: u64 = 1;
const BOB: u64 = 2;
const CAROL: u64 = 3;

fn fingerprint(bytes: &[u8]) -> Proof {
    Proof::try_new(bytes.to_vec()).expect("within bound")
}

#[test]
fn bounded_proof_accepts_up_to_bound() {
    let p = Proof::try_new(vec![7u8; 32]).unwrap();
    assert_eq!(p.len(), 32);
    assert_eq!(p.as_bytes(), &vec![7u8; 32]);
    assert!(Proof::try_new(Vec::new()).is_ok());
}

#[test]
fn bounded_proof_rejects_over_bound() {
    let r = Proof::try_new(vec![7u8; 33]);
    assert_eq!(r, Err(vec![7u8; 33]));
    let r = BoundedProof::<0>::try_new(vec![1u8]);
    assert_eq!(r, Err(vec![1u8]));
}

#[test]
fn bounded_proof_round_trips_bytes() {
    let p = fingerprint(&[1, 2, 3]);
    assert_eq!(p.clone().into_inner(), vec![1u8, 2, 3]);
    assert_eq!(p.clone(), p);
}

#[test]
fn new_registry_is_empty() {
    let pallet = Pallet::<32>::new();
    assert!(!pallet.contains_key(&fingerprint(&[1])));
    assert_eq!(pallet.proofs(&fingerprint(&[1])), None);
}

#[test]
fn create_twice_fails_and_keeps_state() {
    let mut pallet = Pallet::<32>::new();
    let p = fingerprint(&[9, 9]);
    assert_eq!(
        pallet.create_claim(ALICE, p.clone(), 5),
        Ok(Event::ClaimCreated(ALICE, p.clone()))
    );
    assert_eq!(pallet.create_claim(BOB, p.clone(), 6), Err(Error::ProofAlreadyClaimed));
    assert_eq!(pallet.create_claim(ALICE, p.clone(), 7), Err(Error::ProofAlreadyClaimed));
    assert_eq!(
        pallet.proofs(&p),
        Some(Claim { owner: ALICE, registered_at: 5 })
    );
}

#[test]
fn absent_proof_cannot_be_revoked_or_transmitted() {
    let mut pallet = Pallet::<32>::new();
    pallet.create_claim(ALICE, fingerprint(&[1]), 1).unwrap();
    let missing = fingerprint(&[2]);
    assert_eq!(pallet.revoke_claim(ALICE, missing.clone()), Err(Error::NoSuchProof));
    assert_eq!(
        pallet.transmit_claim(ALICE, missing.clone(), BOB, 2),
        Err(Error::NoSuchProof)
    );
    assert!(!pallet.contains_key(&missing));
    assert_eq!(pallet.proofs(&fingerprint(&[1])), Some(Claim { owner: ALICE, registered_at: 1 }));
}

#[test]
fn non_owner_cannot_revoke_or_transmit() {
    let mut pallet = Pallet::<32>::new();
    let p = fingerprint(&[4, 5, 6]);
    pallet.create_claim(ALICE, p.clone(), 3).unwrap();
    assert_eq!(pallet.revoke_claim(BOB, p.clone()), Err(Error::NotProofOwner));
    assert_eq!(pallet.transmit_claim(BOB, p.clone(), BOB, 4), Err(Error::NotProofOwner));
    assert_eq!(pallet.proofs(&p), Some(Claim { owner: ALICE, registered_at: 3 }));
}

#[test]
fn revoke_then_recreate_forgets_previous_owner() {
    let mut pallet = Pallet::<32>::new();
    let p = fingerprint(&[0xaa]);
    pallet.create_claim(ALICE, p.clone(), 1).unwrap();
    assert_eq!(
        pallet.revoke_claim(ALICE, p.clone()),
        Ok(Event::ClaimRevoked(ALICE, p.clone()))
    );
    assert!(!pallet.contains_key(&p));
    assert_eq!(pallet.revoke_claim(ALICE, p.clone()), Err(Error::NoSuchProof));
    assert_eq!(
        pallet.create_claim(CAROL, p.clone(), 8),
        Ok(Event::ClaimCreated(CAROL, p.clone()))
    );
    assert_eq!(pallet.proofs(&p), Some(Claim { owner: CAROL, registered_at: 8 }));
}

#[test]
fn transfer_chain_ends_with_last_recipient() {
    let mut pallet = Pallet::<32>::new();
    let p = fingerprint(&[1, 1, 2, 3, 5, 8]);
    pallet.create_claim(ALICE, p.clone(), 1).unwrap();
    assert_eq!(
        pallet.transmit_claim(ALICE, p.clone(), BOB, 2),
        Ok(Event::ClaimTransmit(ALICE, BOB, p.clone()))
    );
    assert_eq!(
        pallet.transmit_claim(BOB, p.clone(), CAROL, 3),
        Ok(Event::ClaimTransmit(BOB, CAROL, p.clone()))
    );
    assert_eq!(pallet.proofs(&p), Some(Claim { owner: CAROL, registered_at: 3 }));
    assert_eq!(pallet.revoke_claim(ALICE, p.clone()), Err(Error::NotProofOwner));
    assert_eq!(pallet.transmit_claim(ALICE, p.clone(), ALICE, 4), Err(Error::NotProofOwner));
}

#[test]
fn self_transfer_restamps_height() {
    let mut pallet = Pallet::<32>::new();
    let p = fingerprint(&[3]);
    pallet.create_claim(ALICE, p.clone(), 1).unwrap();
    assert_eq!(
        pallet.transmit_claim(ALICE, p.clone(), ALICE, 9),
        Ok(Event::ClaimTransmit(ALICE, ALICE, p.clone()))
    );
    assert_eq!(pallet.proofs(&p), Some(Claim { owner: ALICE, registered_at: 9 }));
}

#[test]
fn distinct_proofs_are_independent() {
    let mut pallet = Pallet::<32>::new();
    let p = fingerprint(&[1, 2]);
    let q = fingerprint(&[1, 2, 0]);
    let e = fingerprint(&[]);
    pallet.create_claim(ALICE, p.clone(), 1).unwrap();
    pallet.create_claim(BOB, q.clone(), 2).unwrap();
    pallet.create_claim(CAROL, e.clone(), 3).unwrap();
    pallet.revoke_claim(ALICE, p.clone()).unwrap();
    assert!(!pallet.contains_key(&p));
    assert_eq!(pallet.proofs(&q), Some(Claim { owner: BOB, registered_at: 2 }));
    assert_eq!(pallet.proofs(&e), Some(Claim { owner: CAROL, registered_at: 3 }));
    pallet.transmit_claim(CAROL, e.clone(), ALICE, 4).unwrap();
    assert_eq!(pallet.proofs(&e), Some(Claim { owner: ALICE, registered_at: 4 }));
    assert_eq!(pallet.proofs(&q), Some(Claim { owner: BOB, registered_at: 2 }));
}

#[test]
fn alice_and_bob_scenario() {
    let mut pallet = Pallet::<32>::new();
    let p = fingerprint(&[0x01, 0x02]);
    assert_eq!(
        pallet.create_claim(ALICE, p.clone(), 10),
        Ok(Event::ClaimCreated(ALICE, p.clone()))
    );
    assert_eq!(pallet.create_claim(BOB, p.clone(), 11), Err(Error::ProofAlreadyClaimed));
    assert_eq!(
        pallet.transmit_claim(ALICE, p.clone(), BOB, 12),
        Ok(Event::ClaimTransmit(ALICE, BOB, p.clone()))
    );
    assert_eq!(pallet.proofs(&p), Some(Claim { owner: BOB, registered_at: 12 }));
    assert_eq!(pallet.revoke_claim(ALICE, p.clone()), Err(Error::NotProofOwner));
    assert_eq!(
        pallet.revoke_claim(BOB, p.clone()),
        Ok(Event::ClaimRevoked(BOB, p.clone()))
    );
    assert!(!pallet.contains_key(&p));
}
