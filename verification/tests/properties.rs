//! What holds of the pallet whatever is done with it, on chosen histories.
use origin_verifier::{
    ClaimType, ClaimVerifier, Config, CrossChainMessage, Effect, Error, Event, GenesisConfig,
    Pallet, PopApiClient, VerificationResult, VerificationStatus, VerifiedClaim, Weight,
    ZkClaim, ZkVerifier,
};

const ALICE: u64 = 1;
const BOB: u64 = 2;
const CHARLIE: u64 = 3;
const ADMIN: u64 = 999;

/// A verifier that can reach no verdict on anything.
struct Helpless;

impl ClaimVerifier for Helpless {
    fn evaluate(&self, _claim: &ZkClaim) -> VerificationResult {
        VerificationResult::Impossible
    }
}

fn config_with(limit: u32) -> Config {
    Config {
        admin_account: ADMIN,
        verification_fee: 100,
        verification_timeout: 10,
        verification_limit: limit,
    }
}

fn pallet_with(limit: u32) -> Pallet {
    GenesisConfig {
        authorized_verifiers: vec![(ALICE, true)],
        verification_fees: vec![(ClaimType::OriginCountry, 100), (ClaimType::Shipping, 201)],
    }
    .build(config_with(limit))
}

fn pallet() -> Pallet {
    pallet_with(10)
}

fn register(pallet: &mut Pallet, product_id: &[u8], owner: u64) {
    pallet
        .register_product(
            owner,
            product_id.to_vec(),
            b"name".to_vec(),
            b"description".to_vec(),
            b"US".to_vec(),
            b"0901".to_vec(),
            7,
            b"meta".to_vec(),
            None,
            0,
        )
        .unwrap();
}

fn claim(claim_type: ClaimType, first_byte: u8) -> ZkClaim {
    ZkClaim {
        claim_type,
        public_inputs: vec![],
        proof: vec![first_byte, 0],
        metadata: vec![],
        timestamp: 0,
    }
}

fn submit(pallet: &mut Pallet, product_id: &[u8], claim_id: &[u8], first_byte: u8, now: u64) {
    pallet
        .submit_claim(
            BOB,
            product_id.to_vec(),
            claim(ClaimType::OriginCountry, first_byte),
            claim_id.to_vec(),
            now,
            true,
        )
        .unwrap();
}

fn submit_remote(pallet: &mut Pallet, product_id: &[u8], claim_id: &[u8], now: u64) {
    pallet
        .submit_cross_chain_verification(
            BOB,
            200,
            product_id.to_vec(),
            claim(ClaimType::OriginCountry, 1),
            claim_id.to_vec(),
            now,
            true,
            true,
        )
        .unwrap();
}

fn claim_of(pallet: &Pallet, product_id: &[u8], claim_id: &[u8]) -> VerifiedClaim {
    pallet
        .product_claims(&product_id.to_vec())
        .into_iter()
        .find(|claim| claim.claim_id == claim_id)
        .unwrap()
}

fn status_of(pallet: &Pallet, product_id: &[u8], claim_id: &[u8]) -> VerificationStatus {
    claim_of(pallet, product_id, claim_id).status
}

fn flag(pallet: &Pallet, product_id: &[u8]) -> bool {
    pallet.products(&product_id.to_vec()).unwrap().origin_verified
}

fn released(effects: &[Effect]) -> u64 {
    effects
        .iter()
        .map(|effect| match effect {
            Effect::Unreserve { amount, .. } => *amount,
            _ => 0,
        })
        .sum()
}

fn transferred(effects: &[Effect]) -> u64 {
    effects
        .iter()
        .map(|effect| match effect {
            Effect::Transfer { amount, .. } => *amount,
            _ => 0,
        })
        .sum()
}

fn held(pallet: &Pallet, product_ids: &[&[u8]]) -> u64 {
    product_ids
        .iter()
        .flat_map(|product_id| pallet.product_claims(&product_id.to_vec()))
        .filter(|claim| claim.status == VerificationStatus::Pending)
        .map(|claim| claim.fee)
        .sum()
}

fn answer(claim_id: &[u8], result: VerificationResult) -> CrossChainMessage {
    CrossChainMessage::VerificationResponse { claim_id: claim_id.to_vec(), result }
}

#[test]
fn a_product_never_holds_two_claims_of_one_name() {
    let mut pallet = pallet();
    register(&mut pallet, b"P", ALICE);
    submit(&mut pallet, b"P", b"A", 1, 0);
    submit(&mut pallet, b"P", b"B", 2, 0);
    pallet.on_initialize(1, &PopApiClient);
    pallet.revoke_claim(ADMIN, b"P".to_vec(), b"A".to_vec(), b"r".to_vec()).unwrap();
    for (name, now) in [(b"A", 2u64), (b"B", 3u64)] {
        let outcome = pallet.submit_claim(
            CHARLIE,
            b"P".to_vec(),
            claim(ClaimType::Shipping, 1),
            name.to_vec(),
            now,
            true,
        );
        assert_eq!(outcome, Err(Error::ClaimIdAlreadyExists));
        let outcome = pallet.submit_cross_chain_verification(
            CHARLIE,
            7,
            b"P".to_vec(),
            claim(ClaimType::Shipping, 1),
            name.to_vec(),
            now,
            true,
            true,
        );
        assert_eq!(outcome, Err(Error::ClaimIdAlreadyExists));
    }
    let names: Vec<Vec<u8>> =
        pallet.product_claims(&b"P".to_vec()).into_iter().map(|claim| claim.claim_id).collect();
    assert_eq!(names, vec![b"A".to_vec(), b"B".to_vec()]);
    assert_eq!(pallet.find_claim_index(&b"P".to_vec(), &b"A".to_vec()), Ok(0));
    assert_eq!(pallet.find_claim_index(&b"P".to_vec(), &b"B".to_vec()), Ok(1));
    assert_eq!(pallet.find_claim_index_or_none(&b"P".to_vec(), &b"B".to_vec()), Some(1));
    assert_eq!(
        pallet.find_claim_index(&b"P".to_vec(), &b"C".to_vec()),
        Err(Error::ClaimNotFound)
    );
    assert_eq!(pallet.find_claim_index_or_none(&b"Q".to_vec(), &b"A".to_vec()), None);
}

#[test]
fn what_is_held_is_what_went_in_and_did_not_come_out() {
    let mut pallet = pallet();
    let products: [&[u8]; 2] = [b"P", b"Q"];
    register(&mut pallet, b"P", ALICE);
    register(&mut pallet, b"Q", ALICE);
    let mut reserved_total = 0u64;
    let mut released_total = 0u64;

    let fee = pallet
        .check_submission(&b"P".to_vec(), &claim(ClaimType::OriginCountry, 1), &b"A".to_vec(), false)
        .unwrap();
    assert_eq!(fee, 100);
    submit(&mut pallet, b"P", b"A", 1, 0);
    reserved_total += fee;
    let fee = pallet
        .check_submission(&b"Q".to_vec(), &claim(ClaimType::Shipping, 2), &b"B".to_vec(), true)
        .unwrap();
    assert_eq!(fee, 402);
    pallet
        .submit_cross_chain_verification(
            BOB,
            200,
            b"Q".to_vec(),
            claim(ClaimType::Shipping, 2),
            b"B".to_vec(),
            0,
            true,
            true,
        )
        .unwrap();
    reserved_total += fee;
    pallet
        .submit_claim(
            CHARLIE,
            b"Q".to_vec(),
            claim(ClaimType::Shipping, 2),
            b"C".to_vec(),
            0,
            true,
        )
        .unwrap();
    reserved_total += 201;
    assert_eq!(held(&pallet, &products), reserved_total);

    pallet.update_verification_fee(ADMIN, ClaimType::Shipping, 5).unwrap();
    assert_eq!(held(&pallet, &products), reserved_total);

    let report = pallet.on_initialize(1, &PopApiClient);
    assert_eq!(released(&report.effects), 100);
    assert_eq!(transferred(&report.effects), 0);
    released_total += released(&report.effects);
    assert_eq!(held(&pallet, &products) + released_total, reserved_total);

    let effects =
        pallet.verify_claim(ALICE, b"Q".to_vec(), b"C".to_vec(), true, None, 2).unwrap();
    assert_eq!(released(&effects), 201);
    assert_eq!(transferred(&effects), 201);
    assert_eq!(
        effects,
        vec![
            Effect::Unreserve { who: CHARLIE, amount: 201 },
            Effect::Transfer { from: CHARLIE, to: ALICE, amount: 100 },
            Effect::Transfer { from: CHARLIE, to: ADMIN, amount: 101 },
            Effect::Deposit(Event::ClaimVerified {
                product_id: b"Q".to_vec(),
                claim_id: b"C".to_vec(),
                claim_type: ClaimType::Shipping,
                success: true,
                reason: None,
            }),
        ]
    );
    released_total += released(&effects);
    assert_eq!(held(&pallet, &products) + released_total, reserved_total);

    let effects = pallet
        .handle_cross_chain_message(200, answer(b"B", VerificationResult::Failure(b"no".to_vec())), 3)
        .unwrap();
    assert_eq!(released(&effects), 402);
    assert_eq!(transferred(&effects), 0);
    released_total += released(&effects);
    assert_eq!(held(&pallet, &products), 0);
    assert_eq!(released_total, reserved_total);

    let report = pallet.on_initialize(100, &PopApiClient);
    assert!(report.effects.is_empty());
    let effects = pallet
        .handle_cross_chain_message(200, answer(b"B", VerificationResult::Success), 101)
        .unwrap();
    assert!(effects.is_empty());
    assert_eq!(
        pallet.verify_claim(ALICE, b"Q".to_vec(), b"C".to_vec(), false, None, 102),
        Err(Error::InvalidClaimState)
    );
}

#[test]
fn a_claim_keeps_the_fee_it_was_handed_in_with() {
    let mut pallet = pallet();
    register(&mut pallet, b"P", ALICE);
    submit(&mut pallet, b"P", b"A", 2, 0);
    pallet.update_verification_fee(ADMIN, ClaimType::OriginCountry, 7).unwrap();
    assert_eq!(claim_of(&pallet, b"P", b"A").fee, 100);
    submit(&mut pallet, b"P", b"B", 2, 0);
    assert_eq!(claim_of(&pallet, b"P", b"B").fee, 7);
    let effects =
        pallet.verify_claim(ADMIN, b"P".to_vec(), b"A".to_vec(), false, Some(b"x".to_vec()), 1).unwrap();
    assert_eq!(released(&effects), 100);
    let report = pallet.on_initialize(10, &PopApiClient);
    assert_eq!(released(&report.effects), 7);
}

#[test]
fn a_settled_claim_stays_settled() {
    let mut pallet = pallet();
    register(&mut pallet, b"P", ALICE);
    submit(&mut pallet, b"P", b"approved", 1, 0);
    submit(&mut pallet, b"P", b"rejected", 5, 0);
    submit(&mut pallet, b"P", b"timed out", 2, 0);
    submit_remote(&mut pallet, b"P", b"failed", 0);
    submit(&mut pallet, b"P", b"revoked", 1, 0);
    pallet.on_initialize(1, &PopApiClient);
    pallet.on_initialize(10, &PopApiClient);
    pallet
        .handle_cross_chain_message(200, answer(b"failed", VerificationResult::Impossible), 11)
        .unwrap();
    pallet.revoke_claim(ADMIN, b"P".to_vec(), b"revoked".to_vec(), b"why".to_vec()).unwrap();

    let settled = pallet.product_claims(&b"P".to_vec());
    assert_eq!(settled[0].status, VerificationStatus::Approved);
    assert_eq!(settled[1].status, VerificationStatus::Rejected(b"Invalid proof format".to_vec()));
    assert_eq!(settled[2].status, VerificationStatus::TimedOut);
    assert_eq!(
        settled[3].status,
        VerificationStatus::Failed(b"Cross-chain verification impossible".to_vec())
    );
    assert_eq!(settled[4].status, VerificationStatus::Revoked(b"why".to_vec()));

    for name in [&b"approved"[..], b"rejected", b"timed out", b"failed", b"revoked"] {
        assert_eq!(
            pallet.verify_claim(ALICE, b"P".to_vec(), name.to_vec(), true, None, 12),
            Err(Error::InvalidClaimState)
        );
        assert!(pallet
            .handle_cross_chain_message(200, answer(name, VerificationResult::Success), 12)
            .unwrap()
            .is_empty());
    }
    for name in [&b"rejected"[..], b"timed out", b"failed", b"revoked"] {
        assert_eq!(
            pallet.revoke_claim(ADMIN, b"P".to_vec(), name.to_vec(), b"again".to_vec()),
            Err(Error::InvalidClaimState)
        );
    }
    let report = pallet.on_initialize(1000, &PopApiClient);
    assert_eq!(report.examined, 0);
    assert_eq!(pallet.product_claims(&b"P".to_vec()), settled);

    pallet.revoke_claim(ADMIN, b"P".to_vec(), b"approved".to_vec(), b"late".to_vec()).unwrap();
    assert_eq!(status_of(&pallet, b"P", b"approved"), VerificationStatus::Revoked(b"late".to_vec()));
}

#[test]
fn a_pending_claim_cannot_be_revoked() {
    let mut pallet = pallet();
    register(&mut pallet, b"P", ALICE);
    submit(&mut pallet, b"P", b"A", 2, 0);
    assert_eq!(
        pallet.revoke_claim(ADMIN, b"P".to_vec(), b"A".to_vec(), b"r".to_vec()),
        Err(Error::InvalidClaimState)
    );
    assert_eq!(status_of(&pallet, b"P", b"A"), VerificationStatus::Pending);
}

#[test]
fn the_origin_flag_tells_which_came_last() {
    let mut pallet = pallet();
    register(&mut pallet, b"P", ALICE);
    register(&mut pallet, b"Q", ALICE);
    assert!(!flag(&pallet, b"P"));

    submit(&mut pallet, b"P", b"A", 1, 0);
    submit(&mut pallet, b"P", b"B", 1, 0);
    submit(&mut pallet, b"P", b"C", 9, 0);
    assert!(!flag(&pallet, b"P"));
    pallet.verify_claim(ALICE, b"P".to_vec(), b"A".to_vec(), true, None, 1).unwrap();
    assert!(flag(&pallet, b"P"));
    assert!(!flag(&pallet, b"Q"));

    pallet.verify_claim(ALICE, b"P".to_vec(), b"C".to_vec(), false, None, 1).unwrap();
    assert!(flag(&pallet, b"P"));

    pallet.verify_claim(ALICE, b"P".to_vec(), b"B".to_vec(), true, None, 1).unwrap();
    pallet.revoke_claim(ADMIN, b"P".to_vec(), b"A".to_vec(), b"r".to_vec()).unwrap();
    assert!(!flag(&pallet, b"P"));
    assert_eq!(status_of(&pallet, b"P", b"B"), VerificationStatus::Approved);

    submit_remote(&mut pallet, b"P", b"D", 2);
    pallet.handle_cross_chain_message(200, answer(b"D", VerificationResult::Success), 3).unwrap();
    assert!(flag(&pallet, b"P"));

    pallet
        .submit_claim(BOB, b"P".to_vec(), claim(ClaimType::Shipping, 1), b"E".to_vec(), 3, true)
        .unwrap();
    pallet.on_initialize(4, &PopApiClient);
    pallet.revoke_claim(ADMIN, b"P".to_vec(), b"E".to_vec(), b"r".to_vec()).unwrap();
    assert!(flag(&pallet, b"P"));
}

#[test]
fn an_answer_has_its_effect_once() {
    for result in [
        VerificationResult::Success,
        VerificationResult::Failure(b"bad".to_vec()),
        VerificationResult::Impossible,
    ] {
        let mut pallet = pallet();
        register(&mut pallet, b"P", ALICE);
        submit_remote(&mut pallet, b"P", b"A", 0);
        submit_remote(&mut pallet, b"P", b"B", 0);
        let first = pallet.handle_cross_chain_message(200, answer(b"A", result.clone()), 1).unwrap();
        assert_eq!(released(&first), 200);
        let claims = pallet.product_claims(&b"P".to_vec());
        let flag_after = flag(&pallet, b"P");
        let waiting = pallet.cross_chain_verifications(&b"B".to_vec());
        for (from, now) in [(200u32, 1u64), (200, 2), (31, 50)] {
            let again =
                pallet.handle_cross_chain_message(from, answer(b"A", result.clone()), now).unwrap();
            assert!(again.is_empty());
            assert_eq!(pallet.product_claims(&b"P".to_vec()), claims);
            assert_eq!(flag(&pallet, b"P"), flag_after);
            assert_eq!(pallet.cross_chain_verifications(&b"A".to_vec()), None);
            assert_eq!(pallet.cross_chain_verifications(&b"B".to_vec()), waiting);
        }
    }
}

#[test]
fn an_answer_after_the_deadline_is_ignored() {
    let mut pallet = pallet();
    register(&mut pallet, b"P", ALICE);
    submit_remote(&mut pallet, b"P", b"A", 0);
    let report = pallet.on_initialize(19, &PopApiClient);
    assert_eq!(report.examined, 1);
    assert!(report.effects.is_empty());
    let report = pallet.on_initialize(20, &PopApiClient);
    assert_eq!(
        report.effects,
        vec![
            Effect::Unreserve { who: BOB, amount: 200 },
            Effect::Deposit(Event::VerificationTimedOut { claim_id: b"A".to_vec() }),
        ]
    );
    assert_eq!(status_of(&pallet, b"P", b"A"), VerificationStatus::TimedOut);
    let effects = pallet
        .handle_cross_chain_message(200, answer(b"A", VerificationResult::Success), 21)
        .unwrap();
    assert!(effects.is_empty());
    assert_eq!(status_of(&pallet, b"P", b"A"), VerificationStatus::TimedOut);
    assert!(!flag(&pallet, b"P"));
}

#[test]
fn an_answer_of_pending_enters_the_claim_again() {
    let mut pallet = pallet();
    register(&mut pallet, b"P", ALICE);
    submit_remote(&mut pallet, b"P", b"A", 0);
    submit_remote(&mut pallet, b"P", b"B", 0);
    assert_eq!(pallet.cross_chain_verifications(&b"A".to_vec()), Some((200, b"P".to_vec(), 20)));
    let effects = pallet
        .handle_cross_chain_message(31, answer(b"A", VerificationResult::Pending), 4)
        .unwrap();
    assert!(effects.is_empty());
    assert_eq!(pallet.cross_chain_verifications(&b"A".to_vec()), Some((31, b"P".to_vec(), 14)));
    assert_eq!(status_of(&pallet, b"P", b"A"), VerificationStatus::Pending);
    let report = pallet.on_initialize(14, &PopApiClient);
    assert_eq!(report.examined, 2);
    assert_eq!(status_of(&pallet, b"P", b"A"), VerificationStatus::TimedOut);
    assert_eq!(status_of(&pallet, b"P", b"B"), VerificationStatus::Pending);
}

#[test]
fn other_messages_change_nothing() {
    let mut pallet = pallet();
    register(&mut pallet, b"P", ALICE);
    submit_remote(&mut pallet, b"P", b"A", 0);
    let claims = pallet.product_claims(&b"P".to_vec());
    let revocation = CrossChainMessage::CredentialRevocation {
        credential_id: b"A".to_vec(),
        reason: b"r".to_vec(),
    };
    assert_eq!(pallet.handle_cross_chain_message(200, revocation, 1), Ok(vec![]));
    let request = CrossChainMessage::VerificationRequest(claim(ClaimType::OriginCountry, 1));
    assert_eq!(pallet.handle_cross_chain_message(200, request, 1), Ok(vec![]));
    assert_eq!(pallet.product_claims(&b"P".to_vec()), claims);
    assert!(pallet.cross_chain_verifications(&b"A".to_vec()).is_some());
}

#[test]
fn a_tick_examines_no_more_than_its_limit() {
    let mut pallet = pallet_with(3);
    register(&mut pallet, b"P", ALICE);
    register(&mut pallet, b"Q", ALICE);
    for i in 0..8u8 {
        submit(&mut pallet, b"P", &[b'L', i], 1, 0);
    }
    for i in 0..4u8 {
        submit_remote(&mut pallet, b"Q", &[b'R', i], 0);
    }
    let settled = |pallet: &Pallet| {
        pallet
            .product_claims(&b"P".to_vec())
            .iter()
            .chain(pallet.product_claims(&b"Q".to_vec()).iter())
            .filter(|claim| claim.status != VerificationStatus::Pending)
            .count()
    };
    let report = pallet.on_initialize(1, &PopApiClient);
    assert_eq!(report.examined, 3);
    assert_eq!(report.weight, Weight::from_parts(30_000, 0));
    assert_eq!(settled(&pallet), 3);
    assert_eq!(released(&report.effects), 300);
    for i in 0..3u8 {
        assert_eq!(status_of(&pallet, b"P", &[b'L', i]), VerificationStatus::Approved);
    }
    let report = pallet.on_initialize(2, &PopApiClient);
    assert_eq!(report.examined, 3);
    assert_eq!(settled(&pallet), 6);
    let report = pallet.on_initialize(30, &PopApiClient);
    assert_eq!(report.examined, 3);
    assert_eq!(report.weight, Weight::from_parts(15_000, 0));
    assert_eq!(settled(&pallet), 9);
    assert_eq!(status_of(&pallet, b"P", &[b'L', 6]), VerificationStatus::TimedOut);
    assert_eq!(status_of(&pallet, b"P", &[b'L', 7]), VerificationStatus::TimedOut);
    assert_eq!(status_of(&pallet, b"Q", &[b'R', 0]), VerificationStatus::TimedOut);
    assert_eq!(status_of(&pallet, b"Q", &[b'R', 1]), VerificationStatus::Pending);
    let report = pallet.on_initialize(31, &PopApiClient);
    assert_eq!(report.examined, 3);
    assert_eq!(settled(&pallet), 12);
    let report = pallet.process_pending_verifications(&PopApiClient, 32);
    assert_eq!(report.examined, 0);
}

#[test]
fn a_tick_with_no_budget_does_nothing() {
    let mut pallet = pallet_with(0);
    register(&mut pallet, b"P", ALICE);
    submit(&mut pallet, b"P", b"A", 1, 0);
    let report = pallet.on_initialize(100, &PopApiClient);
    assert_eq!(report.examined, 0);
    assert!(report.effects.is_empty());
    assert_eq!(status_of(&pallet, b"P", b"A"), VerificationStatus::Pending);
}

#[test]
fn claims_without_verdict_use_up_the_budget() {
    let mut pallet = pallet_with(2);
    register(&mut pallet, b"P", ALICE);
    submit(&mut pallet, b"P", b"A", 2, 0);
    submit(&mut pallet, b"P", b"B", 2, 0);
    submit(&mut pallet, b"P", b"C", 1, 0);
    for now in 1..10 {
        let report = pallet.on_initialize(now, &PopApiClient);
        assert_eq!(report.examined, 2);
        assert!(report.effects.is_empty());
    }
    assert_eq!(status_of(&pallet, b"P", b"C"), VerificationStatus::Pending);
    let report = pallet.on_initialize(10, &PopApiClient);
    assert_eq!(report.examined, 2);
    assert_eq!(status_of(&pallet, b"P", b"A"), VerificationStatus::TimedOut);
    assert_eq!(status_of(&pallet, b"P", b"B"), VerificationStatus::TimedOut);
    assert_eq!(status_of(&pallet, b"P", b"C"), VerificationStatus::Pending);
    let report = pallet.on_initialize(10, &PopApiClient);
    assert_eq!(report.examined, 1);
    assert_eq!(status_of(&pallet, b"P", b"C"), VerificationStatus::TimedOut);
}

#[test]
fn a_verifier_without_any_verdict_fails_the_claim() {
    let mut pallet = pallet();
    register(&mut pallet, b"P", ALICE);
    submit(&mut pallet, b"P", b"A", 1, 0);
    let report = pallet.on_initialize(1, &Helpless);
    assert_eq!(
        report.effects,
        vec![
            Effect::Unreserve { who: BOB, amount: 100 },
            Effect::Deposit(Event::ClaimVerified {
                product_id: b"P".to_vec(),
                claim_id: b"A".to_vec(),
                claim_type: ClaimType::OriginCountry,
                success: false,
                reason: Some(b"Verification impossible".to_vec()),
            }),
        ]
    );
    assert_eq!(
        status_of(&pallet, b"P", b"A"),
        VerificationStatus::Failed(b"Verification impossible".to_vec())
    );
    assert_eq!(claim_of(&pallet, b"P", b"A").verified_at, Some(1));
    assert!(!flag(&pallet, b"P"));
}

#[test]
fn the_accepting_verifier_accepts_what_has_a_proof() {
    let with_proof = claim(ClaimType::Customs, 9);
    assert_eq!(ZkVerifier::verify_claim(&with_proof), VerificationResult::Success);
    assert_eq!(ZkVerifier.evaluate(&with_proof), VerificationResult::Success);
    let mut without = claim(ClaimType::Customs, 9);
    without.proof = vec![];
    assert_eq!(
        ZkVerifier::verify_claim(&without),
        VerificationResult::Failure(b"Empty proof data".to_vec())
    );
}

#[test]
fn the_built_in_verifier_reads_the_first_byte() {
    let verdict = |proof: &[u8]| {
        let mut claim = claim(ClaimType::Customs, 0);
        claim.proof = proof.to_vec();
        PopApiClient::verify_zk_claim(&claim)
    };
    assert_eq!(verdict(&[]), VerificationResult::Failure(b"Empty proof provided".to_vec()));
    assert_eq!(verdict(&[1, 0]), VerificationResult::Success);
    assert_eq!(verdict(&[2, 0]), VerificationResult::Pending);
    assert_eq!(verdict(&[1]), VerificationResult::Failure(b"Invalid proof format".to_vec()));
    assert_eq!(verdict(&[2]), VerificationResult::Failure(b"Invalid proof format".to_vec()));
    assert_eq!(verdict(&[3, 1]), VerificationResult::Failure(b"Invalid proof format".to_vec()));
    assert_eq!(verdict(&[0, 1, 2]), VerificationResult::Failure(b"Invalid proof format".to_vec()));
    assert_eq!(PopApiClient.evaluate(&claim(ClaimType::Customs, 1)), VerificationResult::Success);
    assert_eq!(PopApiClient::resolve_did(&vec![]), None);
    assert_eq!(PopApiClient::resolve_did(&b"did:pop:alice".to_vec()), Some(b"Resolved DID data".to_vec()));
    assert!(!PopApiClient::check_credential_status(&vec![]));
    assert!(PopApiClient::check_credential_status(&b"c".to_vec()));
}

#[test]
fn fees_and_deadlines_double_across_chains() {
    let mut pallet = pallet();
    register(&mut pallet, b"P", ALICE);
    let local = claim(ClaimType::Shipping, 1);
    assert_eq!(pallet.check_submission(&b"P".to_vec(), &local, &b"A".to_vec(), false), Ok(201));
    assert_eq!(pallet.check_submission(&b"P".to_vec(), &local, &b"A".to_vec(), true), Ok(402));
    let unlisted = claim(ClaimType::Custom(b"organic".to_vec()), 1);
    assert_eq!(pallet.check_submission(&b"P".to_vec(), &unlisted, &b"A".to_vec(), true), Ok(0));
    pallet
        .update_verification_fee(ADMIN, ClaimType::Custom(b"organic".to_vec()), 9)
        .unwrap();
    assert_eq!(pallet.check_submission(&b"P".to_vec(), &unlisted, &b"A".to_vec(), true), Ok(18));
    let other = claim(ClaimType::Custom(b"fair".to_vec()), 1);
    assert_eq!(pallet.check_submission(&b"P".to_vec(), &other, &b"A".to_vec(), false), Ok(0));

    pallet.submit_claim(BOB, b"P".to_vec(), local.clone(), b"A".to_vec(), 5, true).unwrap();
    assert_eq!(pallet.pending_verifications(&b"A".to_vec()), Some((b"P".to_vec(), 15)));
    pallet
        .submit_cross_chain_verification(BOB, 9, b"P".to_vec(), local, b"B".to_vec(), 5, true, true)
        .unwrap();
    assert_eq!(pallet.cross_chain_verifications(&b"B".to_vec()), Some((9, b"P".to_vec(), 25)));
    assert_eq!(claim_of(&pallet, b"P", b"A").fee, 201);
    assert_eq!(claim_of(&pallet, b"P", b"B").fee, 402);
    assert_eq!(claim_of(&pallet, b"P", b"B").source_para_id, Some(9));
    assert_eq!(claim_of(&pallet, b"P", b"A").submitted_at, 5);
}

#[test]
fn a_fee_no_balance_can_hold_is_not_paid() {
    let mut pallet = pallet();
    register(&mut pallet, b"P", ALICE);
    pallet.update_verification_fee(ADMIN, ClaimType::Customs, u64::MAX / 2 + 1).unwrap();
    let dear = claim(ClaimType::Customs, 1);
    assert_eq!(
        pallet.check_submission(&b"P".to_vec(), &dear, &b"A".to_vec(), false),
        Ok(u64::MAX / 2 + 1)
    );
    assert_eq!(
        pallet.check_submission(&b"P".to_vec(), &dear, &b"A".to_vec(), true),
        Err(Error::VerificationFeesNotPaid)
    );
    assert_eq!(
        pallet.submit_cross_chain_verification(
            BOB,
            1,
            b"P".to_vec(),
            dear,
            b"A".to_vec(),
            0,
            true,
            true
        ),
        Err(Error::VerificationFeesNotPaid)
    );
    pallet.update_verification_fee(ADMIN, ClaimType::Customs, u64::MAX / 2).unwrap();
    assert_eq!(
        pallet.check_submission(&b"P".to_vec(), &claim(ClaimType::Customs, 1), &b"A".to_vec(), true),
        Ok(u64::MAX - 1)
    );
}

#[test]
fn submission_is_refused_in_order() {
    let mut pallet = pallet();
    register(&mut pallet, b"P", ALICE);
    let good = claim(ClaimType::OriginCountry, 1);
    let mut no_proof = good.clone();
    no_proof.proof = vec![];

    let attempt = |pallet: &mut Pallet, product: &[u8], claim: ZkClaim, name: &[u8], reserved| {
        pallet.submit_claim(BOB, product.to_vec(), claim, name.to_vec(), 0, reserved)
    };
    assert_eq!(attempt(&mut pallet, b"X", no_proof.clone(), b"", false), Err(Error::ProductNotFound));
    assert_eq!(attempt(&mut pallet, b"P", no_proof.clone(), b"A", false), Err(Error::InvalidClaimData));
    assert_eq!(attempt(&mut pallet, b"P", good.clone(), b"", false), Err(Error::InvalidClaimData));
    assert_eq!(
        attempt(&mut pallet, b"P", good.clone(), b"A", false),
        Err(Error::VerificationFeesNotPaid)
    );
    assert!(pallet.product_claims(&b"P".to_vec()).is_empty());
    assert_eq!(pallet.pending_verifications(&b"A".to_vec()), None);

    attempt(&mut pallet, b"P", good.clone(), b"A", true).unwrap();
    assert_eq!(
        attempt(&mut pallet, b"P", good.clone(), b"A", false),
        Err(Error::ClaimIdAlreadyExists)
    );
    for i in 1..10u8 {
        attempt(&mut pallet, b"P", good.clone(), &[b'B', i], true).unwrap();
    }
    assert_eq!(pallet.product_claims(&b"P".to_vec()).len(), 10);
    assert_eq!(attempt(&mut pallet, b"P", good.clone(), b"A", true), Err(Error::ClaimIdAlreadyExists));
    assert_eq!(attempt(&mut pallet, b"P", good.clone(), b"C", false), Err(Error::TooManyClaims));
    assert_eq!(attempt(&mut pallet, b"P", good.clone(), b"C", true), Err(Error::TooManyClaims));
    assert_eq!(pallet.product_claims(&b"P".to_vec()).len(), 10);
    pallet.on_initialize(1, &PopApiClient);
    assert_eq!(attempt(&mut pallet, b"P", good.clone(), b"C", true), Err(Error::TooManyClaims));

    pallet.deactivate_product(ALICE, b"P".to_vec()).unwrap();
    assert_eq!(attempt(&mut pallet, b"P", no_proof, b"", true), Err(Error::ProductNotActive));
    assert_eq!(
        pallet.check_submission(&b"P".to_vec(), &good, &b"C".to_vec(), false),
        Err(Error::ProductNotActive)
    );
}

#[test]
fn a_request_that_was_not_sent_enters_nothing() {
    let mut pallet = pallet();
    register(&mut pallet, b"P", ALICE);
    let good = claim(ClaimType::OriginCountry, 1);
    let outcome = pallet.submit_cross_chain_verification(
        BOB,
        200,
        b"P".to_vec(),
        good.clone(),
        b"A".to_vec(),
        0,
        false,
        true,
    );
    assert_eq!(outcome, Err(Error::CrossChainError));
    let outcome = pallet.submit_cross_chain_verification(
        BOB,
        200,
        b"P".to_vec(),
        good.clone(),
        b"A".to_vec(),
        0,
        false,
        false,
    );
    assert_eq!(outcome, Err(Error::CrossChainError));
    let outcome = pallet.submit_cross_chain_verification(
        BOB,
        200,
        b"P".to_vec(),
        good,
        b"A".to_vec(),
        0,
        true,
        false,
    );
    assert_eq!(outcome, Err(Error::VerificationFeesNotPaid));
    assert!(pallet.product_claims(&b"P".to_vec()).is_empty());
    assert_eq!(pallet.cross_chain_verifications(&b"A".to_vec()), None);
}

#[test]
fn registration_is_refused_in_order() {
    let mut pallet = pallet();
    let mut attempt = |id: &[u8], country: &[u8], hs: &[u8], metadata: &[u8]| {
        pallet.register_product(
            ALICE,
            id.to_vec(),
            b"n".to_vec(),
            b"d".to_vec(),
            country.to_vec(),
            hs.to_vec(),
            1,
            metadata.to_vec(),
            Some(vec![]),
            3,
        )
    };
    let long = [0u8; 1025];
    assert_eq!(attempt(b"", b"USA", b"", &long), Err(Error::InvalidClaimData));
    assert_eq!(attempt(b"P", b"USA", b"", &long), Err(Error::InvalidCountryCode));
    assert_eq!(attempt(b"P", b"U", b"", &long), Err(Error::InvalidCountryCode));
    assert_eq!(attempt(b"P", b"US", b"", &long), Err(Error::InvalidHsCode));
    assert_eq!(attempt(b"P", b"US", b"09", &long), Err(Error::MetadataTooLong));
    assert!(attempt(b"P", b"US", b"09", &long[..1024]).is_ok());
    assert_eq!(attempt(b"P", b"DE", b"10", b""), Err(Error::ProductAlreadyExists));
    let product = pallet.products(&b"P".to_vec()).unwrap();
    assert_eq!(product.owner, ALICE);
    assert_eq!(product.origin_country, b"US".to_vec());
    assert_eq!(product.registered_at, 3);
    assert!(product.active);
    assert!(!product.origin_verified);
    assert_eq!(pallet.product_owner_dids(&b"P".to_vec()), None);
    assert_eq!(pallet.products(&b"Q".to_vec()), None);
    assert!(pallet.product_claims(&b"Q".to_vec()).is_empty());
}

#[test]
fn an_owner_identifier_is_kept() {
    let mut pallet = pallet();
    pallet
        .register_product(
            ALICE,
            b"P".to_vec(),
            b"n".to_vec(),
            b"d".to_vec(),
            b"US".to_vec(),
            b"09".to_vec(),
            1,
            vec![],
            Some(b"did:pop:alice".to_vec()),
            0,
        )
        .unwrap();
    assert_eq!(pallet.product_owner_dids(&b"P".to_vec()), Some(b"did:pop:alice".to_vec()));
    assert_eq!(pallet.product_owner_dids(&b"Q".to_vec()), None);
}

#[test]
fn a_product_is_changed_by_its_owner_or_the_administrator() {
    let mut pallet = pallet();
    register(&mut pallet, b"P", BOB);
    assert_eq!(
        pallet.update_product_info(BOB, b"Q".to_vec(), None, None, None),
        Err(Error::ProductNotFound)
    );
    assert_eq!(
        pallet.update_product_info(ALICE, b"P".to_vec(), None, None, Some(vec![0; 1025])),
        Err(Error::NotProductOwner)
    );
    assert_eq!(
        pallet.update_product_info(BOB, b"P".to_vec(), Some(b"new".to_vec()), None, Some(vec![0; 1025])),
        Err(Error::MetadataTooLong)
    );
    assert_eq!(pallet.products(&b"P".to_vec()).unwrap().name, b"name".to_vec());

    let effects = pallet
        .update_product_info(BOB, b"P".to_vec(), Some(b"new".to_vec()), None, Some(vec![1; 1024]))
        .unwrap();
    assert_eq!(effects, vec![Effect::Deposit(Event::ProductUpdated { product_id: b"P".to_vec() })]);
    let product = pallet.products(&b"P".to_vec()).unwrap();
    assert_eq!(product.name, b"new".to_vec());
    assert_eq!(product.description, b"description".to_vec());
    assert_eq!(product.metadata.to_vec(), vec![1; 1024]);

    pallet.update_product_info(ADMIN, b"P".to_vec(), None, Some(b"other".to_vec()), None).unwrap();
    let product = pallet.products(&b"P".to_vec()).unwrap();
    assert_eq!(product.name, b"new".to_vec());
    assert_eq!(product.description, b"other".to_vec());
    assert_eq!(product.metadata.to_vec(), vec![1; 1024]);

    assert_eq!(pallet.deactivate_product(ALICE, b"P".to_vec()), Err(Error::NotProductOwner));
    assert_eq!(pallet.deactivate_product(BOB, b"Q".to_vec()), Err(Error::ProductNotFound));
    assert!(pallet.products(&b"P".to_vec()).unwrap().active);
    assert_eq!(
        pallet.deactivate_product(ADMIN, b"P".to_vec()),
        Ok(vec![Effect::Deposit(Event::ProductUpdated { product_id: b"P".to_vec() })])
    );
    assert!(!pallet.products(&b"P".to_vec()).unwrap().active);
}

#[test]
fn claims_of_a_deactivated_product_are_still_settled() {
    let mut pallet = pallet();
    register(&mut pallet, b"P", ALICE);
    submit(&mut pallet, b"P", b"A", 1, 0);
    pallet.deactivate_product(ALICE, b"P".to_vec()).unwrap();
    pallet.on_initialize(1, &PopApiClient);
    assert_eq!(status_of(&pallet, b"P", b"A"), VerificationStatus::Approved);
    assert!(flag(&pallet, b"P"));
}

#[test]
fn the_guard_knows_verifiers_and_the_administrator() {
    let mut pallet = pallet();
    assert!(pallet.can_resolve(ALICE, &b"P".to_vec()));
    assert!(pallet.can_resolve(ADMIN, &b"P".to_vec()));
    assert!(!pallet.can_resolve(BOB, &b"P".to_vec()));
    assert!(pallet.can_revoke(ADMIN));
    assert!(!pallet.can_revoke(ALICE));
    assert!(pallet.can_manage_fee_schedule(ADMIN));
    assert!(!pallet.can_manage_fee_schedule(ALICE));
    assert!(pallet.can_manage_verifiers(ADMIN));
    assert!(!pallet.can_manage_verifiers(BOB));
    assert!(!pallet.authorized_verifiers(ADMIN));

    assert_eq!(
        pallet.set_verifier_authorization(ADMIN, ALICE, false),
        Ok(vec![Effect::Deposit(Event::VerifierAuthorizationChanged {
            account: ALICE,
            authorized: false
        })])
    );
    assert!(!pallet.can_resolve(ALICE, &b"P".to_vec()));
    pallet.set_verifier_authorization(ADMIN, BOB, true).unwrap();
    pallet.set_verifier_authorization(ADMIN, ALICE, true).unwrap();
    assert!(pallet.can_resolve(ALICE, &b"P".to_vec()));
    assert!(pallet.can_resolve(BOB, &b"P".to_vec()));
}

#[test]
fn a_verdict_by_hand_needs_a_product_a_claim_and_a_verifier() {
    let mut pallet = pallet();
    register(&mut pallet, b"P", ALICE);
    submit(&mut pallet, b"P", b"A", 2, 0);
    assert_eq!(
        pallet.verify_claim(BOB, b"X".to_vec(), b"A".to_vec(), true, None, 1),
        Err(Error::NotAuthorizedVerifier)
    );
    assert_eq!(
        pallet.verify_claim(ALICE, b"X".to_vec(), b"A".to_vec(), true, None, 1),
        Err(Error::ProductNotFound)
    );
    assert_eq!(
        pallet.verify_claim(ALICE, b"P".to_vec(), b"B".to_vec(), true, None, 1),
        Err(Error::ClaimNotFound)
    );
    assert_eq!(
        pallet.revoke_claim(ADMIN, b"X".to_vec(), b"A".to_vec(), vec![]),
        Err(Error::ProductNotFound)
    );
    assert_eq!(
        pallet.revoke_claim(ADMIN, b"P".to_vec(), b"B".to_vec(), vec![]),
        Err(Error::ClaimNotFound)
    );
    assert_eq!(status_of(&pallet, b"P", b"A"), VerificationStatus::Pending);

    let effects = pallet
        .verify_claim(ALICE, b"P".to_vec(), b"A".to_vec(), false, Some(b"forged".to_vec()), 4)
        .unwrap();
    assert_eq!(
        effects,
        vec![
            Effect::Unreserve { who: BOB, amount: 100 },
            Effect::Deposit(Event::ClaimVerified {
                product_id: b"P".to_vec(),
                claim_id: b"A".to_vec(),
                claim_type: ClaimType::OriginCountry,
                success: false,
                reason: Some(b"forged".to_vec()),
            }),
        ]
    );
    let settled = claim_of(&pallet, b"P", b"A");
    assert_eq!(settled.status, VerificationStatus::Rejected(b"forged".to_vec()));
    assert_eq!(settled.verifier, Some(ALICE));
    assert_eq!(settled.verified_at, Some(4));
    assert_eq!(pallet.pending_verifications(&b"A".to_vec()), None);
    let report = pallet.on_initialize(5, &PopApiClient);
    assert_eq!(report.examined, 0);
}

#[test]
fn a_verdict_by_hand_settles_a_cross_chain_claim_too() {
    let mut pallet = pallet();
    register(&mut pallet, b"P", ALICE);
    submit_remote(&mut pallet, b"P", b"A", 0);
    let effects = pallet.verify_claim(ADMIN, b"P".to_vec(), b"A".to_vec(), true, None, 1).unwrap();
    assert_eq!(
        effects,
        vec![
            Effect::Deposit(Event::OriginVerified { product_id: b"P".to_vec(), verified: true }),
            Effect::Unreserve { who: BOB, amount: 200 },
            Effect::Transfer { from: BOB, to: ADMIN, amount: 100 },
            Effect::Transfer { from: BOB, to: ADMIN, amount: 100 },
            Effect::Deposit(Event::ClaimVerified {
                product_id: b"P".to_vec(),
                claim_id: b"A".to_vec(),
                claim_type: ClaimType::OriginCountry,
                success: true,
                reason: None,
            }),
        ]
    );
    assert_eq!(pallet.cross_chain_verifications(&b"A".to_vec()), None);
    let effects = pallet
        .handle_cross_chain_message(200, answer(b"A", VerificationResult::Failure(vec![])), 2)
        .unwrap();
    assert!(effects.is_empty());
    assert_eq!(status_of(&pallet, b"P", b"A"), VerificationStatus::Approved);
}

#[test]
fn genesis_lists_fees_and_verifiers() {
    let pallet = GenesisConfig {
        authorized_verifiers: vec![(BOB, true), (CHARLIE, true), (BOB, false)],
        verification_fees: vec![
            (ClaimType::Shipping, 1),
            (ClaimType::Custom(b"x".to_vec()), 2),
            (ClaimType::Shipping, 3),
        ],
    }
    .build(config_with(10));
    assert!(!pallet.authorized_verifiers(BOB));
    assert!(pallet.authorized_verifiers(CHARLIE));
    assert!(!pallet.authorized_verifiers(ALICE));
    assert_eq!(pallet.verification_fees(&ClaimType::Shipping), 3);
    assert_eq!(pallet.verification_fees(&ClaimType::Custom(b"x".to_vec())), 2);
    assert_eq!(pallet.verification_fees(&ClaimType::Custom(b"y".to_vec())), 0);
    assert_eq!(pallet.verification_fees(&ClaimType::OriginCountry), 100);
    assert_eq!(pallet.verification_fees(&ClaimType::Manufacturing), 0);
    assert_eq!(pallet.config(), config_with(10));

    let listed = GenesisConfig {
        authorized_verifiers: vec![],
        verification_fees: vec![(ClaimType::OriginCountry, 5)],
    }
    .build(config_with(10));
    assert_eq!(listed.verification_fees(&ClaimType::OriginCountry), 5);

    let bare = GenesisConfig::default().build(config_with(10));
    assert_eq!(bare.verification_fees(&ClaimType::OriginCountry), 100);
    assert!(!bare.authorized_verifiers(ADMIN));
    assert!(bare.can_resolve(ADMIN, &vec![]));
}

#[test]
fn weights_add_up_and_stay_at_the_top() {
    let light = Weight::from_parts(3, 4);
    assert_eq!(light.ref_time(), 3);
    assert_eq!(light.proof_size(), 4);
    assert_eq!(Weight::zero(), Weight::from_parts(0, 0));
    assert_eq!(light.saturating_add(Weight::from_parts(10, 20)), Weight::from_parts(13, 24));
    assert_eq!(
        Weight::from_parts(u64::MAX - 1, 7).saturating_add(Weight::from_parts(1, u64::MAX)),
        Weight::from_parts(u64::MAX, u64::MAX)
    );
    assert_eq!(
        Weight::from_parts(u64::MAX, 0).saturating_add(Weight::from_parts(5, 0)),
        Weight::from_parts(u64::MAX, 0)
    );
}

#[test]
fn a_tick_costs_by_what_it_settles() {
    let mut pallet = pallet();
    register(&mut pallet, b"P", ALICE);
    submit(&mut pallet, b"P", b"approved", 1, 0);
    submit(&mut pallet, b"P", b"waiting", 2, 0);
    submit(&mut pallet, b"P", b"rejected", 3, 0);
    submit_remote(&mut pallet, b"P", b"remote", 0);
    let report = pallet.on_initialize(1, &PopApiClient);
    assert_eq!(report.examined, 4);
    assert_eq!(report.weight, Weight::from_parts(20_000, 0));
    let report = pallet.on_initialize(10, &PopApiClient);
    assert_eq!(report.examined, 2);
    assert_eq!(report.weight, Weight::from_parts(5_000, 0));
    let report = pallet.on_initialize(20, &PopApiClient);
    assert_eq!(report.examined, 1);
    assert_eq!(report.weight, Weight::from_parts(5_000, 0));
}
