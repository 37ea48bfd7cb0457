//! The life of a claim, end to end, with a host that keeps the balances.
use origin_verifier::{
    ClaimType, Config, CrossChainMessage, Effect, Error, Event, GenesisConfig, Pallet,
    PopApiClient, VerificationResult, VerificationStatus, Weight, ZkClaim,
};
use std::collections::HashMap;

const ALICE: u64 = 1;
const BOB: u64 = 2;
const ADMIN: u64 = 999;

/// A host ledger: free and reserved balances by account.
struct Bank {
    free: HashMap<u64, u64>,
    reserved: HashMap<u64, u64>,
}

impl Bank {
    fn with(balances: &[(u64, u64)]) -> Bank {
        let mut free = HashMap::new();
        for (who, amount) in balances {
            free.insert(*who, *amount);
        }
        Bank { free, reserved: HashMap::new() }
    }

    fn free(&self, who: u64) -> u64 {
        *self.free.get(&who).unwrap_or(&0)
    }

    fn reserved(&self, who: u64) -> u64 {
        *self.reserved.get(&who).unwrap_or(&0)
    }

    fn reserve(&mut self, who: u64, amount: u64) -> bool {
        if self.free(who) < amount {
            return false;
        }
        self.free.insert(who, self.free(who) - amount);
        self.reserved.insert(who, self.reserved(who) + amount);
        true
    }

    fn perform(&mut self, effects: &[Effect]) {
        for effect in effects {
            match effect {
                Effect::Unreserve { who, amount } => {
                    let released = (*amount).min(self.reserved(*who));
                    self.reserved.insert(*who, self.reserved(*who) - released);
                    self.free.insert(*who, self.free(*who) + released);
                }
                Effect::Transfer { from, to, amount } => {
                    if self.free(*from) >= *amount {
                        self.free.insert(*from, self.free(*from) - *amount);
                        self.free.insert(*to, self.free(*to) + *amount);
                    }
                }
                Effect::Deposit(_) => {}
            }
        }
    }
}

fn config() -> Config {
    Config {
        admin_account: ADMIN,
        verification_fee: 100,
        verification_timeout: 10,
        verification_limit: 10,
    }
}

fn pallet() -> Pallet {
    GenesisConfig {
        authorized_verifiers: vec![(ADMIN, true), (ALICE, true)],
        verification_fees: vec![
            (ClaimType::OriginCountry, 100),
            (ClaimType::Manufacturing, 150),
            (ClaimType::Shipping, 200),
            (ClaimType::Customs, 250),
            (ClaimType::Certification, 300),
        ],
    }
    .build(config())
}

fn register(pallet: &mut Pallet, product_id: &[u8], owner: u64) {
    let outcome = pallet.register_product(
        owner,
        product_id.to_vec(),
        b"Test Product".to_vec(),
        b"A product for testing".to_vec(),
        b"US".to_vec(),
        b"1234.56.78".to_vec(),
        1234567890,
        b"Test metadata".to_vec(),
        None,
        1,
    );
    assert!(outcome.is_ok());
}

fn claim(claim_type: ClaimType, first_byte: u8) -> ZkClaim {
    ZkClaim {
        claim_type,
        public_inputs: b"test inputs".to_vec(),
        proof: vec![first_byte, 2, 3, 4],
        metadata: b"test metadata".to_vec(),
        timestamp: 1234567890,
    }
}

/// Hands in a local claim as a host does: ask for the fee, reserve it, and
/// tell the pallet whether that worked.
fn submit(
    pallet: &mut Pallet,
    bank: &mut Bank,
    who: u64,
    product_id: &[u8],
    claim: ZkClaim,
    claim_id: &[u8],
    now: u64,
) -> Result<Vec<Effect>, Error> {
    let fee = pallet.check_submission(&product_id.to_vec(), &claim, &claim_id.to_vec(), false)?;
    let reserved = bank.reserve(who, fee);
    let outcome =
        pallet.submit_claim(who, product_id.to_vec(), claim, claim_id.to_vec(), now, reserved);
    if outcome.is_err() && reserved {
        bank.perform(&[Effect::Unreserve { who, amount: fee }]);
    }
    outcome
}

fn status_of(pallet: &Pallet, product_id: &[u8], claim_id: &[u8]) -> VerificationStatus {
    pallet
        .product_claims(&product_id.to_vec())
        .into_iter()
        .find(|claim| claim.claim_id == claim_id)
        .map(|claim| claim.status)
        .unwrap()
}

fn origin_verified(pallet: &Pallet, product_id: &[u8]) -> bool {
    pallet.products(&product_id.to_vec()).unwrap().origin_verified
}

#[test]
fn valid_proof_is_approved_and_the_fee_comes_back() {
    let mut pallet = pallet();
    let mut bank = Bank::with(&[(BOB, 150)]);
    register(&mut pallet, b"PROD1", ALICE);

    let effects =
        submit(&mut pallet, &mut bank, BOB, b"PROD1", claim(ClaimType::OriginCountry, 1), b"C1", 1)
            .unwrap();
    assert_eq!(
        effects,
        vec![Effect::Deposit(Event::ClaimSubmitted {
            product_id: b"PROD1".to_vec(),
            claim_id: b"C1".to_vec(),
            claim_type: ClaimType::OriginCountry,
            submitter: BOB,
        })]
    );
    assert_eq!(bank.reserved(BOB), 100);
    assert_eq!(bank.free(BOB), 50);
    assert_eq!(status_of(&pallet, b"PROD1", b"C1"), VerificationStatus::Pending);
    assert_eq!(pallet.pending_verifications(&b"C1".to_vec()), Some((b"PROD1".to_vec(), 11)));

    let report = pallet.on_initialize(2, &PopApiClient);
    assert_eq!(report.examined, 1);
    assert_eq!(report.weight, Weight::from_parts(10_000, 0));
    assert_eq!(
        report.effects,
        vec![
            Effect::Deposit(Event::OriginVerified { product_id: b"PROD1".to_vec(), verified: true }),
            Effect::Unreserve { who: BOB, amount: 100 },
            Effect::Deposit(Event::ClaimVerified {
                product_id: b"PROD1".to_vec(),
                claim_id: b"C1".to_vec(),
                claim_type: ClaimType::OriginCountry,
                success: true,
                reason: None,
            }),
        ]
    );
    bank.perform(&report.effects);

    assert_eq!(status_of(&pallet, b"PROD1", b"C1"), VerificationStatus::Approved);
    assert!(origin_verified(&pallet, b"PROD1"));
    assert_eq!(bank.reserved(BOB), 0);
    assert_eq!(bank.free(BOB), 150);
    assert_eq!(pallet.pending_verifications(&b"C1".to_vec()), None);
    let claims = pallet.product_claims(&b"PROD1".to_vec());
    assert_eq!(claims[0].verified_at, Some(2));
    assert_eq!(claims[0].verifier, None);
    assert_eq!(claims[0].fee, 100);
}

#[test]
fn approval_of_another_kind_of_claim_leaves_the_origin_flag() {
    let mut pallet = pallet();
    let mut bank = Bank::with(&[(BOB, 1000)]);
    register(&mut pallet, b"PROD1", ALICE);
    submit(&mut pallet, &mut bank, BOB, b"PROD1", claim(ClaimType::Shipping, 1), b"C1", 1).unwrap();
    assert_eq!(bank.reserved(BOB), 200);
    let report = pallet.on_initialize(2, &PopApiClient);
    bank.perform(&report.effects);
    assert_eq!(status_of(&pallet, b"PROD1", b"C1"), VerificationStatus::Approved);
    assert!(!origin_verified(&pallet, b"PROD1"));
    assert_eq!(bank.free(BOB), 1000);
}

#[test]
fn invalid_proof_is_rejected_and_the_fee_comes_back() {
    let mut pallet = pallet();
    let mut bank = Bank::with(&[(BOB, 150)]);
    register(&mut pallet, b"PROD1", ALICE);
    submit(&mut pallet, &mut bank, BOB, b"PROD1", claim(ClaimType::OriginCountry, 7), b"C2", 1)
        .unwrap();
    assert_eq!(bank.free(BOB), 50);

    let report = pallet.on_initialize(2, &PopApiClient);
    assert_eq!(
        report.effects,
        vec![
            Effect::Unreserve { who: BOB, amount: 100 },
            Effect::Deposit(Event::ClaimVerified {
                product_id: b"PROD1".to_vec(),
                claim_id: b"C2".to_vec(),
                claim_type: ClaimType::OriginCountry,
                success: false,
                reason: Some(b"Invalid proof format".to_vec()),
            }),
        ]
    );
    bank.perform(&report.effects);

    assert_eq!(
        status_of(&pallet, b"PROD1", b"C2"),
        VerificationStatus::Rejected(b"Invalid proof format".to_vec())
    );
    assert!(!origin_verified(&pallet, b"PROD1"));
    assert_eq!(bank.free(BOB), 150);
    assert_eq!(bank.reserved(BOB), 0);
    assert_eq!(pallet.pending_verifications(&b"C2".to_vec()), None);
}

#[test]
fn rejection_leaves_an_origin_flag_that_was_set() {
    let mut pallet = pallet();
    let mut bank = Bank::with(&[(BOB, 1000)]);
    register(&mut pallet, b"PROD1", ALICE);
    submit(&mut pallet, &mut bank, BOB, b"PROD1", claim(ClaimType::OriginCountry, 1), b"C1", 1)
        .unwrap();
    pallet.on_initialize(2, &PopApiClient);
    assert!(origin_verified(&pallet, b"PROD1"));
    submit(&mut pallet, &mut bank, BOB, b"PROD1", claim(ClaimType::OriginCountry, 9), b"C2", 3)
        .unwrap();
    pallet.on_initialize(4, &PopApiClient);
    assert!(matches!(status_of(&pallet, b"PROD1", b"C2"), VerificationStatus::Rejected(_)));
    assert!(origin_verified(&pallet, b"PROD1"));
}

#[test]
fn claim_without_verdict_times_out_at_its_deadline() {
    let mut pallet = pallet();
    let mut bank = Bank::with(&[(BOB, 150)]);
    register(&mut pallet, b"PROD1", ALICE);
    submit(&mut pallet, &mut bank, BOB, b"PROD1", claim(ClaimType::OriginCountry, 2), b"C3", 1)
        .unwrap();
    assert_eq!(pallet.pending_verifications(&b"C3".to_vec()), Some((b"PROD1".to_vec(), 11)));

    for now in 2..11 {
        let report = pallet.on_initialize(now, &PopApiClient);
        assert_eq!(report.examined, 1);
        assert_eq!(report.weight, Weight::zero());
        assert!(report.effects.is_empty());
        assert_eq!(status_of(&pallet, b"PROD1", b"C3"), VerificationStatus::Pending);
        assert_eq!(bank.reserved(BOB), 100);
    }

    let report = pallet.on_initialize(11, &PopApiClient);
    assert_eq!(report.weight, Weight::from_parts(5_000, 0));
    assert_eq!(
        report.effects,
        vec![
            Effect::Unreserve { who: BOB, amount: 100 },
            Effect::Deposit(Event::VerificationTimedOut { claim_id: b"C3".to_vec() }),
        ]
    );
    bank.perform(&report.effects);
    assert_eq!(status_of(&pallet, b"PROD1", b"C3"), VerificationStatus::TimedOut);
    assert_eq!(bank.free(BOB), 150);
    assert_eq!(pallet.pending_verifications(&b"C3".to_vec()), None);
    let claims = pallet.product_claims(&b"PROD1".to_vec());
    assert_eq!(claims[0].verified_at, None);

    let report = pallet.on_initialize(12, &PopApiClient);
    assert_eq!(report.examined, 0);
    assert!(report.effects.is_empty());
}

#[test]
fn second_claim_of_the_same_name_is_refused() {
    let mut pallet = pallet();
    let mut bank = Bank::with(&[(BOB, 1000)]);
    register(&mut pallet, b"PROD1", ALICE);
    submit(&mut pallet, &mut bank, BOB, b"PROD1", claim(ClaimType::OriginCountry, 2), b"C1", 1)
        .unwrap();
    let before = pallet.product_claims(&b"PROD1".to_vec());

    let outcome =
        submit(&mut pallet, &mut bank, BOB, b"PROD1", claim(ClaimType::Shipping, 1), b"C1", 2);
    assert_eq!(outcome, Err(Error::ClaimIdAlreadyExists));
    assert_eq!(pallet.product_claims(&b"PROD1".to_vec()), before);
    assert_eq!(pallet.pending_verifications(&b"C1".to_vec()), Some((b"PROD1".to_vec(), 11)));
    assert_eq!(bank.reserved(BOB), 100);
    assert_eq!(bank.free(BOB), 900);

    pallet.on_initialize(20, &PopApiClient);
    assert_eq!(status_of(&pallet, b"PROD1", b"C1"), VerificationStatus::TimedOut);
    let outcome =
        submit(&mut pallet, &mut bank, BOB, b"PROD1", claim(ClaimType::Shipping, 1), b"C1", 21);
    assert_eq!(outcome, Err(Error::ClaimIdAlreadyExists));
}

#[test]
fn same_claim_name_under_another_product_is_taken() {
    let mut pallet = pallet();
    let mut bank = Bank::with(&[(BOB, 1000)]);
    register(&mut pallet, b"PROD1", ALICE);
    register(&mut pallet, b"PROD2", ALICE);
    submit(&mut pallet, &mut bank, BOB, b"PROD1", claim(ClaimType::OriginCountry, 2), b"C1", 1)
        .unwrap();
    submit(&mut pallet, &mut bank, BOB, b"PROD2", claim(ClaimType::OriginCountry, 1), b"C1", 2)
        .unwrap();
    assert_eq!(pallet.product_claims(&b"PROD1".to_vec()).len(), 1);
    assert_eq!(pallet.product_claims(&b"PROD2".to_vec()).len(), 1);
    assert_eq!(pallet.pending_verifications(&b"C1".to_vec()), Some((b"PROD2".to_vec(), 12)));
}

#[test]
fn cross_chain_answer_settles_the_claim_once() {
    let mut pallet = pallet();
    let mut bank = Bank::with(&[(ALICE, 1000)]);
    register(&mut pallet, b"PROD1", ALICE);
    let request = claim(ClaimType::OriginCountry, 1);
    let fee = pallet.check_submission(&b"PROD1".to_vec(), &request, &b"C4".to_vec(), true).unwrap();
    assert_eq!(fee, 200);
    assert!(bank.reserve(ALICE, fee));
    let effects = pallet
        .submit_cross_chain_verification(
            ALICE,
            200,
            b"PROD1".to_vec(),
            request,
            b"C4".to_vec(),
            5,
            true,
            true,
        )
        .unwrap();
    assert_eq!(
        effects,
        vec![Effect::Deposit(Event::CrossChainVerificationSent {
            para_id: 200,
            claim_id: b"C4".to_vec()
        })]
    );
    assert_eq!(
        pallet.cross_chain_verifications(&b"C4".to_vec()),
        Some((200, b"PROD1".to_vec(), 25))
    );
    assert_eq!(pallet.pending_verifications(&b"C4".to_vec()), None);

    let answer = CrossChainMessage::VerificationResponse {
        claim_id: b"C4".to_vec(),
        result: VerificationResult::Success,
    };
    let effects = pallet.handle_cross_chain_message(200, answer.clone(), 6).unwrap();
    assert_eq!(
        effects,
        vec![
            Effect::Deposit(Event::OriginVerified { product_id: b"PROD1".to_vec(), verified: true }),
            Effect::Deposit(Event::CrossChainVerificationReceived {
                from_para_id: 200,
                claim_id: b"C4".to_vec(),
                success: true,
            }),
            Effect::Unreserve { who: ALICE, amount: 200 },
        ]
    );
    bank.perform(&effects);
    assert_eq!(status_of(&pallet, b"PROD1", b"C4"), VerificationStatus::Approved);
    assert_eq!(pallet.cross_chain_verifications(&b"C4".to_vec()), None);
    assert!(origin_verified(&pallet, b"PROD1"));
    assert_eq!(bank.free(ALICE), 1000);
    assert_eq!(bank.reserved(ALICE), 0);

    let claims_before = pallet.product_claims(&b"PROD1".to_vec());
    let effects = pallet.handle_cross_chain_message(200, answer, 7).unwrap();
    assert!(effects.is_empty());
    bank.perform(&effects);
    assert_eq!(pallet.product_claims(&b"PROD1".to_vec()), claims_before);
    assert_eq!(bank.free(ALICE), 1000);
}

#[test]
fn admin_revokes_an_approved_origin_claim() {
    let mut pallet = pallet();
    let mut bank = Bank::with(&[(BOB, 1000)]);
    register(&mut pallet, b"PROD1", ALICE);
    submit(&mut pallet, &mut bank, BOB, b"PROD1", claim(ClaimType::OriginCountry, 1), b"C1", 1)
        .unwrap();
    pallet.on_initialize(2, &PopApiClient);
    assert!(origin_verified(&pallet, b"PROD1"));
    let before = pallet.product_claims(&b"PROD1".to_vec());

    let outcome = pallet.revoke_claim(ALICE, b"PROD1".to_vec(), b"C1".to_vec(), b"fraud".to_vec());
    assert_eq!(outcome, Err(Error::RequiresAdminPrivileges));
    assert_eq!(pallet.product_claims(&b"PROD1".to_vec()), before);
    assert!(origin_verified(&pallet, b"PROD1"));

    let effects =
        pallet.revoke_claim(ADMIN, b"PROD1".to_vec(), b"C1".to_vec(), b"fraud".to_vec()).unwrap();
    assert_eq!(
        effects,
        vec![
            Effect::Deposit(Event::OriginVerified { product_id: b"PROD1".to_vec(), verified: false }),
            Effect::Deposit(Event::ClaimRevoked {
                product_id: b"PROD1".to_vec(),
                claim_id: b"C1".to_vec(),
                reason: b"fraud".to_vec(),
            }),
        ]
    );
    assert_eq!(status_of(&pallet, b"PROD1", b"C1"), VerificationStatus::Revoked(b"fraud".to_vec()));
    assert!(!origin_verified(&pallet, b"PROD1"));
}
