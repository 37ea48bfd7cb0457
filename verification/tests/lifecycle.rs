//! Products and claims through registration, submission, verdicts by hand
//! and administration.
use origin_verifier::{
    ClaimType, Config, CrossChainMessage, Effect, Error, Event, GenesisConfig, Pallet,
    PopApiClient, ProductInfo, VerificationResult, VerificationStatus, ZkClaim, ZkVerifier,
};

const ALICE: u64 = 1;
const BOB: u64 = 2;
const CHARLIE: u64 = 3;
const ADMIN: u64 = 999;

fn config() -> Config {
    Config {
        admin_account: ADMIN,
        verification_fee: 100,
        verification_timeout: 10,
        verification_limit: 10,
    }
}

fn new_test_ext() -> Pallet {
    GenesisConfig {
        authorized_verifiers: vec![(ADMIN, true), (ALICE, true)],
        verification_fees: vec![
            (ClaimType::OriginCountry, 100),
            (ClaimType::Manufacturing, 150),
            (ClaimType::Shipping, 200),
            (ClaimType::Customs, 250),
            (ClaimType::Certification, 300),
        ],
    }
    .build(config())
}

fn register(
    pallet: &mut Pallet,
    who: u64,
    product_id: &[u8],
    name: &[u8],
    description: &[u8],
) -> Result<Vec<Effect>, Error> {
    pallet.register_product(
        who,
        product_id.to_vec(),
        name.to_vec(),
        description.to_vec(),
        b"US".to_vec(),
        b"1234.56.78".to_vec(),
        1234567890,
        b"Test metadata".to_vec(),
        None,
        0,
    )
}

fn origin_claim(proof: &[u8]) -> ZkClaim {
    ZkClaim {
        claim_type: ClaimType::OriginCountry,
        public_inputs: b"test inputs".to_vec(),
        proof: proof.to_vec(),
        metadata: b"test metadata".to_vec(),
        timestamp: 1234567890,
    }
}

fn submit(
    pallet: &mut Pallet,
    who: u64,
    claim_id: &[u8],
    product_id: &[u8],
    proof: &[u8],
) -> Result<Vec<Effect>, Error> {
    pallet.submit_claim(who, product_id.to_vec(), origin_claim(proof), claim_id.to_vec(), 0, true)
}

#[test]
fn register_product_works() {
    let mut pallet = new_test_ext();
    let product_id = [1u8];
    let product_info = ProductInfo {
        owner: ALICE,
        name: b"Organic Coffee".to_vec(),
        description: b"Premium coffee from high altitude farms".to_vec(),
        verified: false,
    };

    let effects = register(
        &mut pallet,
        ALICE,
        &product_id,
        b"Organic Coffee",
        b"Premium coffee from high altitude farms",
    )
    .unwrap();

    assert_eq!(pallet.product_info(&product_id.to_vec()), Some(product_info));
    assert_eq!(
        effects.last(),
        Some(&Effect::Deposit(Event::ProductRegistered {
            product_id: product_id.to_vec(),
            owner: ALICE
        }))
    );

    let before = pallet.products(&product_id.to_vec());
    assert_eq!(
        register(&mut pallet, BOB, &product_id, b"Another product", b"Another description"),
        Err(Error::ProductAlreadyExists)
    );
    assert_eq!(pallet.products(&product_id.to_vec()), before);
}

#[test]
fn submit_claim_for_verification_works() {
    let mut pallet = new_test_ext();
    let product_id = [1u8];
    register(
        &mut pallet,
        ALICE,
        &product_id,
        b"Organic Coffee",
        b"Premium coffee from high altitude farms",
    )
    .unwrap();

    let claim_id = [1u8];
    let proof_data = b"ZK proof for origin verification".to_vec();

    let effects = submit(&mut pallet, BOB, &claim_id, &product_id, &proof_data).unwrap();

    assert!(pallet.pending_verifications(&claim_id.to_vec()).is_some());
    assert_eq!(
        effects.last(),
        Some(&Effect::Deposit(Event::ClaimSubmitted {
            product_id: product_id.to_vec(),
            claim_id: claim_id.to_vec(),
            claim_type: ClaimType::OriginCountry,
            submitter: BOB,
        }))
    );

    assert_eq!(
        submit(&mut pallet, BOB, &[2u8], &[231u8, 3u8], &proof_data),
        Err(Error::ProductNotFound)
    );
    assert_eq!(
        submit(&mut pallet, BOB, &claim_id, &product_id, &proof_data),
        Err(Error::ClaimIdAlreadyExists)
    );
}

#[test]
fn verify_claim_works() {
    let mut pallet = new_test_ext();
    let product_id = [1u8];
    let claim_id = [1u8];
    register(
        &mut pallet,
        ALICE,
        &product_id,
        b"Organic Coffee",
        b"Premium coffee from high altitude farms",
    )
    .unwrap();
    submit(&mut pallet, BOB, &claim_id, &product_id, b"ZK proof for origin verification").unwrap();

    let effects = pallet
        .verify_claim(ALICE, product_id.to_vec(), claim_id.to_vec(), true, None, 0)
        .unwrap();

    assert!(pallet.pending_verifications(&claim_id.to_vec()).is_none());
    let claims = pallet.product_claims(&product_id.to_vec());
    assert_eq!(claims[0].status, VerificationStatus::Approved);
    assert_eq!(claims[0].verifier, Some(ALICE));
    assert!(pallet.products(&product_id.to_vec()).unwrap().origin_verified);
    assert_eq!(
        effects.last(),
        Some(&Effect::Deposit(Event::ClaimVerified {
            product_id: product_id.to_vec(),
            claim_id: claim_id.to_vec(),
            claim_type: ClaimType::OriginCountry,
            success: true,
            reason: None,
        }))
    );

    assert_eq!(
        pallet.verify_claim(ALICE, product_id.to_vec(), vec![231u8, 3u8], true, None, 0),
        Err(Error::ClaimNotFound)
    );

    let claim_id_2 = [2u8];
    submit(&mut pallet, BOB, &claim_id_2, &product_id, b"Another ZK proof").unwrap();
    assert_eq!(
        pallet.verify_claim(BOB, product_id.to_vec(), claim_id_2.to_vec(), true, None, 0),
        Err(Error::NotAuthorizedVerifier)
    );
}

#[test]
fn reject_claim_works() {
    let mut pallet = new_test_ext();
    let product_id = [1u8];
    let claim_id = [1u8];
    register(
        &mut pallet,
        ALICE,
        &product_id,
        b"Organic Coffee",
        b"Premium coffee from high altitude farms",
    )
    .unwrap();
    submit(&mut pallet, BOB, &claim_id, &product_id, b"ZK proof for origin verification").unwrap();

    let effects = pallet
        .verify_claim(ALICE, product_id.to_vec(), claim_id.to_vec(), false, None, 0)
        .unwrap();

    assert!(pallet.pending_verifications(&claim_id.to_vec()).is_none());
    assert!(!pallet.products(&product_id.to_vec()).unwrap().origin_verified);
    assert_eq!(
        pallet.product_claims(&product_id.to_vec())[0].status,
        VerificationStatus::Rejected(Vec::new())
    );
    assert_eq!(
        effects,
        vec![
            Effect::Unreserve { who: BOB, amount: 100 },
            Effect::Deposit(Event::ClaimVerified {
                product_id: product_id.to_vec(),
                claim_id: claim_id.to_vec(),
                claim_type: ClaimType::OriginCountry,
                success: false,
                reason: None,
            }),
        ]
    );
}

#[test]
fn update_verification_fee_works() {
    let mut pallet = new_test_ext();
    let new_fee = 200u64;

    let effects =
        pallet.update_verification_fee(ADMIN, ClaimType::OriginCountry, new_fee).unwrap();

    assert_eq!(pallet.verification_fees(&ClaimType::OriginCountry), new_fee);
    assert_eq!(
        effects.last(),
        Some(&Effect::Deposit(Event::VerificationFeeUpdated {
            claim_type: ClaimType::OriginCountry,
            new_fee
        }))
    );

    assert_eq!(
        pallet.update_verification_fee(ALICE, ClaimType::OriginCountry, 300u64),
        Err(Error::RequiresAdminPrivileges)
    );
    assert_eq!(pallet.verification_fees(&ClaimType::OriginCountry), new_fee);
}

fn check_admin_can_update_verification_fee() {
    let mut pallet = new_test_ext();
    let initial_fee = pallet.verification_fees(&ClaimType::OriginCountry);

    let new_fee = initial_fee * 2;
    assert!(pallet.update_verification_fee(ADMIN, ClaimType::OriginCountry, new_fee).is_ok());
    assert_eq!(pallet.verification_fees(&ClaimType::OriginCountry), new_fee);

    assert_eq!(
        pallet.update_verification_fee(ALICE, ClaimType::OriginCountry, new_fee + 1),
        Err(Error::RequiresAdminPrivileges)
    );
}

#[test]
fn integration_tests_admin_can_update_verification_fee() {
    check_admin_can_update_verification_fee();
}

#[test]
fn integration_tests_pseudocode_admin_can_update_verification_fee() {
    check_admin_can_update_verification_fee();
}

fn check_invalid_proof_fails_verification() {
    let mut pallet = new_test_ext();
    let product_id = b"PROD003";
    register(&mut pallet, ALICE, product_id, b"Test Product", b"Test Description").unwrap();

    let claim_id = b"CLAIM003";
    assert_eq!(submit(&mut pallet, BOB, claim_id, product_id, &[]), Err(Error::InvalidClaimData));
    submit(&mut pallet, BOB, claim_id, product_id, &[9, 9]).unwrap();

    let report = pallet.on_initialize(1, &PopApiClient);
    assert_eq!(report.examined, 1);

    assert!(!pallet.products(&product_id.to_vec()).unwrap().origin_verified);
    assert!(!pallet.product_info(&product_id.to_vec()).unwrap().verified);
}

#[test]
fn integration_tests_invalid_proof_fails_verification() {
    check_invalid_proof_fails_verification();
}

#[test]
fn integration_tests_pseudocode_invalid_proof_fails_verification() {
    check_invalid_proof_fails_verification();
}

fn check_only_owner_or_admin_can_verify_claims() {
    let mut pallet = new_test_ext();
    let product_id = b"PROD004";
    register(&mut pallet, ALICE, product_id, b"Test Product", b"Test Description").unwrap();

    let claim_id = b"CLAIM004";
    submit(&mut pallet, BOB, claim_id, product_id, b"valid proof data").unwrap();

    assert_eq!(
        pallet.verify_claim(CHARLIE, product_id.to_vec(), claim_id.to_vec(), true, None, 0),
        Err(Error::NotAuthorizedVerifier)
    );

    assert!(pallet
        .verify_claim(ADMIN, product_id.to_vec(), claim_id.to_vec(), true, None, 0)
        .is_ok());

    assert!(pallet.product_info(&product_id.to_vec()).unwrap().verified);
}

#[test]
fn integration_tests_only_owner_or_admin_can_verify_claims() {
    check_only_owner_or_admin_can_verify_claims();
}

#[test]
fn integration_tests_pseudocode_only_owner_or_admin_can_verify_claims() {
    check_only_owner_or_admin_can_verify_claims();
}

#[test]
fn process_pending_verifications_automatically() {
    let mut pallet = new_test_ext();
    let product_ids = [b"AUTO1".to_vec(), b"AUTO2".to_vec()];
    for pid in &product_ids {
        register(&mut pallet, ALICE, pid, b"Auto Product", b"For automatic verification")
            .unwrap();
    }

    let claim_ids = [b"ACLAIM1".to_vec(), b"ACLAIM2".to_vec()];
    submit(&mut pallet, BOB, &claim_ids[0], &product_ids[0], b"valid proof").unwrap();
    assert_eq!(
        submit(&mut pallet, BOB, &claim_ids[1], &product_ids[1], &[]),
        Err(Error::InvalidClaimData)
    );

    let block_number = 1;
    pallet.on_initialize(block_number, &ZkVerifier);

    let product1 = pallet.product_info(&product_ids[0]).unwrap();
    let product2 = pallet.product_info(&product_ids[1]).unwrap();
    assert!(product1.verified);
    assert!(!product2.verified);
}

#[test]
fn test_cross_chain_verification_flow() {
    let mut pallet = new_test_ext();
    let product_id = b"product123".to_vec();
    let claim_id = b"claim123".to_vec();

    assert!(pallet
        .register_product(
            ALICE,
            product_id.clone(),
            b"Test Product".to_vec(),
            b"A product for testing".to_vec(),
            b"US".to_vec(),
            b"1234.56.78".to_vec(),
            1234567890,
            b"Test metadata".to_vec(),
            Some(b"did:pop:alice".to_vec()),
            0,
        )
        .is_ok());

    let claim = ZkClaim {
        claim_type: ClaimType::OriginCountry,
        public_inputs: b"test inputs".to_vec(),
        proof: vec![0x01, 2, 3, 4],
        metadata: b"test metadata".to_vec(),
        timestamp: 1234567890,
    };

    assert!(pallet
        .submit_cross_chain_verification(
            ALICE,
            200,
            product_id.clone(),
            claim.clone(),
            claim_id.clone(),
            0,
            true,
            true,
        )
        .is_ok());

    let claims = pallet.product_claims(&product_id);
    assert_eq!(claims.len(), 1);
    assert!(matches!(claims[0].status, VerificationStatus::Pending));
    assert!(claims[0].is_cross_chain);
    assert_eq!(claims[0].source_para_id, Some(200));

    assert!(pallet.cross_chain_verifications(&claim_id).is_some());

    let message = CrossChainMessage::VerificationResponse {
        claim_id: claim_id.clone(),
        result: VerificationResult::Success,
    };

    assert!(pallet.handle_cross_chain_message(200, message, 0).is_ok());

    let claims = pallet.product_claims(&product_id);
    assert_eq!(claims.len(), 1);
    assert!(matches!(claims[0].status, VerificationStatus::Approved));

    assert!(pallet.cross_chain_verifications(&claim_id).is_none());

    let product = pallet.products(&product_id).unwrap();
    assert!(product.origin_verified);

    let bad_product_id = b"doesnotexist".to_vec();
    let bad_claim_id = b"badclaim".to_vec();

    let claims_before = pallet.product_claims(&product_id);
    assert_eq!(
        pallet.submit_cross_chain_verification(
            ALICE,
            200,
            bad_product_id.clone(),
            claim.clone(),
            bad_claim_id.clone(),
            0,
            true,
            true,
        ),
        Err(Error::ProductNotFound)
    );
    assert_eq!(pallet.product_claims(&product_id), claims_before);
    assert!(pallet.cross_chain_verifications(&bad_claim_id).is_none());
    assert!(pallet.products(&bad_product_id).is_none());

    let timeout_product_id = b"timeout_product".to_vec();
    let timeout_claim_id = b"timeout_claim".to_vec();

    assert!(pallet
        .register_product(
            ALICE,
            timeout_product_id.clone(),
            b"Timeout Product".to_vec(),
            b"A product for testing timeouts".to_vec(),
            b"JP".to_vec(),
            b"9876.54.32".to_vec(),
            1234567890,
            b"Test metadata".to_vec(),
            None,
            0,
        )
        .is_ok());

    let timeout_claim = ZkClaim {
        claim_type: ClaimType::OriginCountry,
        public_inputs: b"test inputs".to_vec(),
        proof: vec![0x02, 2, 3, 4],
        metadata: b"test metadata".to_vec(),
        timestamp: 1234567890,
    };

    assert!(pallet
        .submit_claim(
            ALICE,
            timeout_product_id.clone(),
            timeout_claim,
            timeout_claim_id.clone(),
            0,
            true,
        )
        .is_ok());

    let claims = pallet.product_claims(&timeout_product_id);
    assert_eq!(claims.len(), 1);
    assert!(matches!(claims[0].status, VerificationStatus::Pending));

    let timeout = pallet.config().verification_timeout;
    let mut block_number = 0;
    for _ in 0..timeout + 1 {
        block_number += 1;
        pallet.on_initialize(block_number, &PopApiClient);
    }

    let claims = pallet.product_claims(&timeout_product_id);
    assert_eq!(claims.len(), 1);
    assert!(matches!(claims[0].status, VerificationStatus::TimedOut));

    assert!(pallet.pending_verifications(&timeout_claim_id).is_none());
}

#[test]
fn test_admin_privileges() {
    let mut pallet = new_test_ext();

    assert!(pallet.set_verifier_authorization(ADMIN, BOB, true).is_ok());
    assert!(pallet.authorized_verifiers(BOB));

    assert_eq!(
        pallet.set_verifier_authorization(ALICE, CHARLIE, true),
        Err(Error::RequiresAdminPrivileges)
    );
    assert!(!pallet.authorized_verifiers(CHARLIE));

    let new_fee: u64 = 200;
    assert!(pallet.update_verification_fee(ADMIN, ClaimType::OriginCountry, new_fee).is_ok());

    assert_eq!(
        pallet.update_verification_fee(ALICE, ClaimType::OriginCountry, 300),
        Err(Error::RequiresAdminPrivileges)
    );
    assert_eq!(pallet.verification_fees(&ClaimType::OriginCountry), 200);

    let product_id = b"admin_test_product".to_vec();
    let claim_id = b"admin_test_claim".to_vec();

    assert!(pallet
        .register_product(
            ALICE,
            product_id.clone(),
            b"Admin Test Product".to_vec(),
            b"A product for testing admin privileges".to_vec(),
            b"UK".to_vec(),
            b"1234.56.78".to_vec(),
            1234567890,
            b"Test metadata".to_vec(),
            None,
            0,
        )
        .is_ok());

    let claim = ZkClaim {
        claim_type: ClaimType::OriginCountry,
        public_inputs: b"test inputs".to_vec(),
        proof: vec![0x01, 2, 3, 4],
        metadata: b"test metadata".to_vec(),
        timestamp: 1234567890,
    };

    assert!(pallet.submit_claim(ALICE, product_id.clone(), claim, claim_id.clone(), 0, true).is_ok());

    assert!(pallet
        .verify_claim(ADMIN, product_id.clone(), claim_id.clone(), true, None, 0)
        .is_ok());

    let claims = pallet.product_claims(&product_id);
    assert_eq!(claims.len(), 1);
    assert!(matches!(claims[0].status, VerificationStatus::Approved));

    let revocation_reason = b"Fraudulent claim".to_vec();
    assert!(pallet
        .revoke_claim(ADMIN, product_id.clone(), claim_id.clone(), revocation_reason.clone())
        .is_ok());

    let claims = pallet.product_claims(&product_id);
    assert_eq!(claims.len(), 1);
    if let VerificationStatus::Revoked(reason) = &claims[0].status {
        assert_eq!(reason, &revocation_reason);
    } else {
        panic!("Claim should be in Revoked state");
    }

    let another_product_id = b"another_product".to_vec();
    let another_claim_id = b"another_claim".to_vec();

    assert!(pallet
        .register_product(
            BOB,
            another_product_id.clone(),
            b"Another Product".to_vec(),
            b"Another test product".to_vec(),
            b"DE".to_vec(),
            b"4321.87.65".to_vec(),
            1234567890,
            b"Test metadata".to_vec(),
            None,
            0,
        )
        .is_ok());

    let another_claim = ZkClaim {
        claim_type: ClaimType::OriginCountry,
        public_inputs: b"test inputs".to_vec(),
        proof: vec![0x01, 2, 3, 4],
        metadata: b"test metadata".to_vec(),
        timestamp: 1234567890,
    };

    assert!(pallet
        .submit_claim(
            BOB,
            another_product_id.clone(),
            another_claim,
            another_claim_id.clone(),
            0,
            true,
        )
        .is_ok());

    assert!(pallet
        .verify_claim(BOB, another_product_id.clone(), another_claim_id.clone(), true, None, 0)
        .is_ok());

    assert_eq!(
        pallet.revoke_claim(
            BOB,
            another_product_id.clone(),
            another_claim_id.clone(),
            b"I changed my mind".to_vec(),
        ),
        Err(Error::RequiresAdminPrivileges)
    );

    let claims = pallet.product_claims(&another_product_id);
    assert_eq!(claims.len(), 1);
    assert!(matches!(claims[0].status, VerificationStatus::Approved));
}
