//! The claim registry: products, the claims handed in for them, and how a
//! claim is settled or revoked by hand.
use crate::bounded::{claim_views, claims_new, metadata_from, MAX_CLAIMS_PER_PRODUCT};
use crate::effects::{none, push_effect, push_manual_effects, single};
use crate::keys::{copy_bytes, optional_bytes, AccountId, Balance, BlockNumber};
use crate::laws::law_stays_well_formed;
use crate::model::{deadline_after, Call};
use crate::runtime_integration::{ClaimType, PopApiClient, ZkClaim};
use crate::storage::{CrossChainVerification, Pallet, PendingVerification, ProductRecord};
use crate::types::{outcome_view, Effect, Error, Event, Product, VerificationStatus, VerifiedClaim};
use vstd::prelude::*;

verus! {

impl Pallet {
    /// Registers a product for `who` at time `now`.
    ///
    /// Refused, in this order: with `InvalidClaimData` where the product's
    /// name is empty; with `InvalidCountryCode` where the country code is
    /// not two bytes long; with `InvalidHsCode` where the classification
    /// code is empty; with `MetadataTooLong`; with `ProductAlreadyExists`.
    /// An owner identifier is kept where one is given that is not empty.
    pub fn register_product(
        &mut self,
        who: AccountId,
        product_id: Vec<u8>,
        name: Vec<u8>,
        description: Vec<u8>,
        origin_country: Vec<u8>,
        hs_code: Vec<u8>,
        manufacture_date: u64,
        metadata: Vec<u8>,
        owner_did: Option<Vec<u8>>,
        now: BlockNumber,
    ) -> (outcome: Result<Vec<Effect>, Error>)
        requires
            old(self).wf(),
        ensures
            final(self).wf(),
            final(self)@ == old(self)@.register_product(
                who,
                product_id@,
                name@,
                description@,
                origin_country@,
                hs_code@,
                manufacture_date,
                metadata@,
                optional_bytes(owner_did),
                now,
            ).state,
            outcome_view(outcome) == old(self)@.register_product(
                who,
                product_id@,
                name@,
                description@,
                origin_country@,
                hs_code@,
                manufacture_date,
                metadata@,
                optional_bytes(owner_did),
                now,
            ).outcome,
    {
        proof {
            law_stays_well_formed::<PopApiClient>(
                self@,
                Call::RegisterProduct {
                    who,
                    product_id: product_id@,
                    name: name@,
                    description: description@,
                    origin_country: origin_country@,
                    hs_code: hs_code@,
                    manufacture_date,
                    metadata: metadata@,
                    owner_did: optional_bytes(owner_did),
                    now,
                },
            );
        }
        if product_id.len() == 0 {
            return Err(Error::InvalidClaimData);
        }
        if origin_country.len() != 2 {
            return Err(Error::InvalidCountryCode);
        }
        if hs_code.len() == 0 {
            return Err(Error::InvalidHsCode);
        }
        let metadata = match metadata_from(metadata) {
            Some(bounded) => bounded,
            None => {
                return Err(Error::MetadataTooLong);
            },
        };
        if self.find_product(&product_id).is_some() {
            return Err(Error::ProductAlreadyExists);
        }
        let kept_did = match owner_did {
            Some(did) => {
                if did.len() > 0 {
                    if PopApiClient::resolve_did(&did).is_none() {
                        return Err(Error::DIDResolutionFailed);
                    }
                    Some(did)
                } else {
                    None
                }
            },
            None => None,
        };
        let event = Event::ProductRegistered { product_id: copy_bytes(&product_id), owner: who };
        let claims = claims_new();
        assert(claim_views(claims) =~= Seq::empty());
        self.push_record(
            ProductRecord {
                product: Product {
                    id: product_id,
                    owner: who,
                    name,
                    description,
                    origin_country,
                    hs_code,
                    manufacture_date,
                    origin_verified: false,
                    metadata,
                    registered_at: now,
                    active: true,
                },
                owner_did: kept_did,
                claims,
            },
        );
        Ok(single(Effect::Deposit(event)))
    }

    /// Whether a claim may be handed in, and the fee the submitter has to
    /// put in escrow for it: the scheduled fee of the claim's type, twice
    /// that for a cross-chain claim.
    ///
    /// Refused, in this order: with `ProductNotFound`; with
    /// `ProductNotActive`; with `InvalidClaimData` where the claim's name or
    /// proof is empty; with `ClaimIdAlreadyExists` where the product holds a
    /// claim of that name; with `TooManyClaims` where the product holds as
    /// many claims as it may; with `VerificationFeesNotPaid` where the fee
    /// is more than any balance holds.
    pub fn check_submission(
        &self,
        product_id: &Vec<u8>,
        claim: &ZkClaim,
        claim_id: &Vec<u8>,
        cross_chain: bool,
    ) -> (fee: Result<Balance, Error>)
        ensures
            fee == self@.check_submission(product_id@, claim@, claim_id@, cross_chain),
    {
        let p = match self.find_product(product_id) {
            Some(p) => p,
            None => {
                return Err(Error::ProductNotFound);
            },
        };
        if !self.product(p).active {
            return Err(Error::ProductNotActive);
        }
        if claim_id.len() == 0 || claim.proof.len() == 0 {
            return Err(Error::InvalidClaimData);
        }
        if self.find_claim(p, claim_id).is_some() {
            return Err(Error::ClaimIdAlreadyExists);
        }
        if self.claim_count(p) >= MAX_CLAIMS_PER_PRODUCT as usize {
            return Err(Error::TooManyClaims);
        }
        let scheduled = self.scheduled_fee(&claim.claim_type);
        if !cross_chain {
            Ok(scheduled)
        } else if scheduled > Balance::MAX / 2 {
            Err(Error::VerificationFeesNotPaid)
        } else {
            Ok(2 * scheduled)
        }
    }

    /// Hands in a claim, local or cross-chain.
    fn submit(
        &mut self,
        who: AccountId,
        product_id: Vec<u8>,
        claim: ZkClaim,
        claim_id: Vec<u8>,
        para_id: Option<u32>,
        now: BlockNumber,
        sent: bool,
        reserved: bool,
    ) -> (outcome: Result<Vec<Effect>, Error>)
        requires
            old(self)@.submit(
                who,
                product_id@,
                claim@,
                claim_id@,
                para_id,
                now,
                sent,
                reserved,
            ).outcome is Ok ==> deadline_after(
                now,
                old(self)@.config.verification_timeout,
                para_id is Some,
            ) <= BlockNumber::MAX,
        ensures
            final(self)@ == old(self)@.submit(
                who,
                product_id@,
                claim@,
                claim_id@,
                para_id,
                now,
                sent,
                reserved,
            ).state,
            outcome_view(outcome) == old(self)@.submit(
                who,
                product_id@,
                claim@,
                claim_id@,
                para_id,
                now,
                sent,
                reserved,
            ).outcome,
    {
        let fee = match self.check_submission(&product_id, &claim, &claim_id, para_id.is_some()) {
            Ok(fee) => fee,
            Err(error) => {
                return Err(error);
            },
        };
        if para_id.is_some() && !sent {
            return Err(Error::CrossChainError);
        }
        if !reserved {
            return Err(Error::VerificationFeesNotPaid);
        }
        let p = match self.find_product(&product_id) {
            Some(p) => p,
            None => {
                return Err(Error::ProductNotFound);
            },
        };
        let timeout = self.config().verification_timeout;
        let claim_type = claim.claim_type.duplicate();
        self.push_claim(
            p,
            VerifiedClaim {
                claim,
                submitter: who,
                submitted_at: now,
                status: VerificationStatus::Pending,
                verifier: None,
                verified_at: None,
                claim_id: copy_bytes(&claim_id),
                is_cross_chain: para_id.is_some(),
                source_para_id: para_id,
                fee,
            },
        );
        match para_id {
            None => {
                self.remove_pending(&claim_id);
                self.push_pending(
                    PendingVerification {
                        claim_id: copy_bytes(&claim_id),
                        product_id: copy_bytes(&product_id),
                        deadline: now + timeout,
                    },
                );
                Ok(
                    single(
                        Effect::Deposit(
                            Event::ClaimSubmitted { product_id, claim_id, claim_type, submitter: who },
                        ),
                    ),
                )
            },
            Some(para) => {
                self.remove_cross_chain(&claim_id);
                self.push_cross_chain(
                    CrossChainVerification {
                        claim_id: copy_bytes(&claim_id),
                        para_id: para,
                        product_id,
                        deadline: now + 2 * timeout,
                    },
                );
                Ok(
                    single(
                        Effect::Deposit(Event::CrossChainVerificationSent { para_id: para, claim_id }),
                    ),
                )
            },
        }
    }

    /// Hands in a local claim for `who` at time `now`. `reserved` says
    /// whether the escrow service took the fee that `check_submission`
    /// names.
    ///
    /// Refused as `check_submission` refuses, and then with
    /// `VerificationFeesNotPaid` where the fee was not reserved. Otherwise
    /// the claim is on record as pending and waits for the scheduler, with
    /// a deadline one timeout from now, which has to be a time the clock
    /// can reach.
    pub fn submit_claim(
        &mut self,
        who: AccountId,
        product_id: Vec<u8>,
        claim: ZkClaim,
        claim_id: Vec<u8>,
        now: BlockNumber,
        reserved: bool,
    ) -> (outcome: Result<Vec<Effect>, Error>)
        requires
            old(self).wf(),
            old(self)@.submit(
                who,
                product_id@,
                claim@,
                claim_id@,
                None,
                now,
                true,
                reserved,
            ).outcome is Ok ==> now + old(self)@.config.verification_timeout
                <= BlockNumber::MAX,
        ensures
            final(self).wf(),
            final(self)@ == old(self)@.submit(
                who,
                product_id@,
                claim@,
                claim_id@,
                None,
                now,
                true,
                reserved,
            ).state,
            outcome_view(outcome) == old(self)@.submit(
                who,
                product_id@,
                claim@,
                claim_id@,
                None,
                now,
                true,
                reserved,
            ).outcome,
    {
        proof {
            law_stays_well_formed::<PopApiClient>(
                self@,
                Call::Submit {
                    who,
                    product_id: product_id@,
                    claim: claim@,
                    claim_id: claim_id@,
                    para_id: None,
                    now,
                    sent: true,
                    reserved,
                },
            );
        }
        self.submit(who, product_id, claim, claim_id, None, now, true, reserved)
    }

    /// Hands in a cross-chain claim for `who` at time `now`, to be verified
    /// by counterparty chain `para_id`. `sent` says whether the request
    /// reached the counterparty, `reserved` whether the escrow service took
    /// the fee that `check_submission` names.
    ///
    /// Refused as `check_submission` refuses, then with `CrossChainError`
    /// where the request was not sent, then with `VerificationFeesNotPaid`
    /// where the fee was not reserved. Otherwise the claim is on record as
    /// pending and waits for the counterparty's answer, with a deadline two
    /// timeouts from now, which has to be a time the clock can reach.
    pub fn submit_cross_chain_verification(
        &mut self,
        who: AccountId,
        para_id: u32,
        product_id: Vec<u8>,
        claim: ZkClaim,
        claim_id: Vec<u8>,
        now: BlockNumber,
        sent: bool,
        reserved: bool,
    ) -> (outcome: Result<Vec<Effect>, Error>)
        requires
            old(self).wf(),
            old(self)@.submit(
                who,
                product_id@,
                claim@,
                claim_id@,
                Some(para_id),
                now,
                sent,
                reserved,
            ).outcome is Ok ==> now + 2 * old(self)@.config.verification_timeout
                <= BlockNumber::MAX,
        ensures
            final(self).wf(),
            final(self)@ == old(self)@.submit(
                who,
                product_id@,
                claim@,
                claim_id@,
                Some(para_id),
                now,
                sent,
                reserved,
            ).state,
            outcome_view(outcome) == old(self)@.submit(
                who,
                product_id@,
                claim@,
                claim_id@,
                Some(para_id),
                now,
                sent,
                reserved,
            ).outcome,
    {
        proof {
            law_stays_well_formed::<PopApiClient>(
                self@,
                Call::Submit {
                    who,
                    product_id: product_id@,
                    claim: claim@,
                    claim_id: claim_id@,
                    para_id: Some(para_id),
                    now,
                    sent,
                    reserved,
                },
            );
        }
        self.submit(who, product_id, claim, claim_id, Some(para_id), now, sent, reserved)
    }

    /// Settles a pending claim by hand, at time `now`: approved, or
    /// rejected for the reason given (the empty reason where none is).
    ///
    /// Refused, in this order: with `NotAuthorizedVerifier` where the caller
    /// is neither a named verifier nor the administrator; with
    /// `ProductNotFound`; with `ClaimNotFound`; with `InvalidClaimState`
    /// where the claim is not pending. Otherwise the claim carries the
    /// verdict, the caller and the time, it waits no longer, its fee is
    /// released, and on approval the fee is split between the caller and
    /// the administrator, the odd unit going to the administrator.
    pub fn verify_claim(
        &mut self,
        who: AccountId,
        product_id: Vec<u8>,
        claim_id: Vec<u8>,
        approved: bool,
        reason: Option<Vec<u8>>,
        now: BlockNumber,
    ) -> (outcome: Result<Vec<Effect>, Error>)
        requires
            old(self).wf(),
        ensures
            final(self).wf(),
            final(self)@ == old(self)@.verify_claim(
                who,
                product_id@,
                claim_id@,
                approved,
                optional_bytes(reason),
                now,
            ).state,
            outcome_view(outcome) == old(self)@.verify_claim(
                who,
                product_id@,
                claim_id@,
                approved,
                optional_bytes(reason),
                now,
            ).outcome,
    {
        proof {
            law_stays_well_formed::<PopApiClient>(
                self@,
                Call::VerifyClaim {
                    who,
                    product_id: product_id@,
                    claim_id: claim_id@,
                    approved,
                    reason: optional_bytes(reason),
                    now,
                },
            );
        }
        if !self.can_resolve(who, &product_id) {
            return Err(Error::NotAuthorizedVerifier);
        }
        let p = match self.find_product(&product_id) {
            Some(p) => p,
            None => {
                return Err(Error::ProductNotFound);
            },
        };
        let c = match self.find_claim(p, &claim_id) {
            Some(c) => c,
            None => {
                return Err(Error::ClaimNotFound);
            },
        };
        let claim = self.claim(p, c);
        if !claim.status.is_pending() {
            return Err(Error::InvalidClaimState);
        }
        let mut effects = none();
        push_manual_effects(
            &mut effects,
            &product_id,
            claim,
            approved,
            &reason,
            who,
            self.config().admin_account,
        );
        let status = if approved {
            VerificationStatus::Approved
        } else {
            VerificationStatus::Rejected(
                match reason {
                    Some(bytes) => bytes,
                    None => Vec::new(),
                },
            )
        };
        self.settle(p, c, status, Some(who), Some(now));
        self.remove_pending(&claim_id);
        self.remove_cross_chain(&claim_id);
        Ok(effects)
    }

    /// Revokes an approved claim, for the reason given. Revoking a claim
    /// about the country of origin clears the product's origin flag.
    ///
    /// Refused, in this order: with `RequiresAdminPrivileges` where the
    /// caller is not the administrator; with `ProductNotFound`; with
    /// `ClaimNotFound`; with `InvalidClaimState` where the claim does not
    /// stand approved.
    pub fn revoke_claim(
        &mut self,
        who: AccountId,
        product_id: Vec<u8>,
        claim_id: Vec<u8>,
        reason: Vec<u8>,
    ) -> (outcome: Result<Vec<Effect>, Error>)
        requires
            old(self).wf(),
        ensures
            final(self).wf(),
            final(self)@ == old(self)@.revoke_claim(who, product_id@, claim_id@, reason@).state,
            outcome_view(outcome) == old(self)@.revoke_claim(
                who,
                product_id@,
                claim_id@,
                reason@,
            ).outcome,
    {
        proof {
            law_stays_well_formed::<PopApiClient>(
                self@,
                Call::RevokeClaim {
                    who,
                    product_id: product_id@,
                    claim_id: claim_id@,
                    reason: reason@,
                },
            );
        }
        if !self.can_revoke(who) {
            return Err(Error::RequiresAdminPrivileges);
        }
        let p = match self.find_product(&product_id) {
            Some(p) => p,
            None => {
                return Err(Error::ProductNotFound);
            },
        };
        let c = match self.find_claim(p, &claim_id) {
            Some(c) => c,
            None => {
                return Err(Error::ClaimNotFound);
            },
        };
        let claim = self.claim(p, c);
        if !claim.status.is_approved() {
            return Err(Error::InvalidClaimState);
        }
        let about_origin = claim.claim.claim_type.is_origin_country();
        self.set_status(p, c, VerificationStatus::Revoked(copy_bytes(&reason)));
        let mut effects = none();
        if about_origin {
            self.set_origin_flag(p, false);
            push_effect(
                &mut effects,
                Effect::Deposit(
                    Event::OriginVerified { product_id: copy_bytes(&product_id), verified: false },
                ),
            );
        }
        push_effect(
            &mut effects,
            Effect::Deposit(Event::ClaimRevoked { product_id, claim_id, reason }),
        );
        assert(effects.deep_view() =~= old(self)@.revoke_claim(
            who,
            product_id@,
            claim_id@,
            reason@,
        ).outcome->Ok_0);
        Ok(effects)
    }

    /// Sets the fee for a claim type. Claims handed in before keep the fee
    /// they were handed in with.
    ///
    /// Refused with `RequiresAdminPrivileges` where the caller is not the
    /// administrator.
    pub fn update_verification_fee(
        &mut self,
        who: AccountId,
        claim_type: ClaimType,
        new_fee: Balance,
    ) -> (outcome: Result<Vec<Effect>, Error>)
        requires
            old(self).wf(),
        ensures
            final(self).wf(),
            final(self)@ == old(self)@.update_verification_fee(who, claim_type@, new_fee).state,
            outcome_view(outcome) == old(self)@.update_verification_fee(
                who,
                claim_type@,
                new_fee,
            ).outcome,
    {
        proof {
            law_stays_well_formed::<PopApiClient>(
                self@,
                Call::UpdateVerificationFee { who, claim_type: claim_type@, new_fee },
            );
        }
        if !self.can_manage_fee_schedule(who) {
            return Err(Error::RequiresAdminPrivileges);
        }
        let event = Event::VerificationFeeUpdated { claim_type: claim_type.duplicate(), new_fee };
        self.bind_fee(claim_type, new_fee);
        Ok(single(Effect::Deposit(event)))
    }

    /// Names an account as a verifier, or takes the name away.
    ///
    /// Refused with `RequiresAdminPrivileges` where the caller is not the
    /// administrator.
    pub fn set_verifier_authorization(
        &mut self,
        who: AccountId,
        verifier: AccountId,
        authorized: bool,
    ) -> (outcome: Result<Vec<Effect>, Error>)
        requires
            old(self).wf(),
        ensures
            final(self).wf(),
            final(self)@ == old(self)@.set_verifier_authorization(who, verifier, authorized).state,
            outcome_view(outcome) == old(self)@.set_verifier_authorization(
                who,
                verifier,
                authorized,
            ).outcome,
    {
        proof {
            law_stays_well_formed::<PopApiClient>(
                self@,
                Call::SetVerifierAuthorization { who, verifier, authorized },
            );
        }
        if !self.can_manage_verifiers(who) {
            return Err(Error::RequiresAdminPrivileges);
        }
        self.bind_verifier(verifier, authorized);
        Ok(
            single(
                Effect::Deposit(
                    Event::VerifierAuthorizationChanged { account: verifier, authorized },
                ),
            ),
        )
    }

    /// Changes the name, the description and the metadata of a product,
    /// each where a new value is given.
    ///
    /// Refused, in this order: with `ProductNotFound`; with
    /// `NotProductOwner` where the caller is neither the owner nor the
    /// administrator; with `MetadataTooLong`. A refused call changes
    /// nothing.
    pub fn update_product_info(
        &mut self,
        who: AccountId,
        product_id: Vec<u8>,
        name: Option<Vec<u8>>,
        description: Option<Vec<u8>>,
        metadata: Option<Vec<u8>>,
    ) -> (outcome: Result<Vec<Effect>, Error>)
        requires
            old(self).wf(),
        ensures
            final(self).wf(),
            final(self)@ == old(self)@.update_product_info(
                who,
                product_id@,
                optional_bytes(name),
                optional_bytes(description),
                optional_bytes(metadata),
            ).state,
            outcome_view(outcome) == old(self)@.update_product_info(
                who,
                product_id@,
                optional_bytes(name),
                optional_bytes(description),
                optional_bytes(metadata),
            ).outcome,
    {
        proof {
            law_stays_well_formed::<PopApiClient>(
                self@,
                Call::UpdateProductInfo {
                    who,
                    product_id: product_id@,
                    name: optional_bytes(name),
                    description: optional_bytes(description),
                    metadata: optional_bytes(metadata),
                },
            );
        }
        let p = match self.find_product(&product_id) {
            Some(p) => p,
            None => {
                return Err(Error::ProductNotFound);
            },
        };
        if !self.can_manage(who, p) {
            return Err(Error::NotProductOwner);
        }
        let metadata = match metadata {
            Some(bytes) => match metadata_from(bytes) {
                Some(bounded) => Some(bounded),
                None => {
                    return Err(Error::MetadataTooLong);
                },
            },
            None => None,
        };
        self.revise_product(p, name, description, metadata);
        Ok(single(Effect::Deposit(Event::ProductUpdated { product_id })))
    }

    /// Deactivates a product: it takes no more claims. Nothing activates it
    /// again.
    ///
    /// Refused with `ProductNotFound`, and then with `NotProductOwner` where
    /// the caller is neither the owner nor the administrator.
    pub fn deactivate_product(&mut self, who: AccountId, product_id: Vec<u8>) -> (outcome: Result<
        Vec<Effect>,
        Error,
    >)
        requires
            old(self).wf(),
        ensures
            final(self).wf(),
            final(self)@ == old(self)@.deactivate_product(who, product_id@).state,
            outcome_view(outcome) == old(self)@.deactivate_product(who, product_id@).outcome,
    {
        proof {
            law_stays_well_formed::<PopApiClient>(
                self@,
                Call::DeactivateProduct { who, product_id: product_id@ },
            );
        }
        let p = match self.find_product(&product_id) {
            Some(p) => p,
            None => {
                return Err(Error::ProductNotFound);
            },
        };
        if !self.can_manage(who, p) {
            return Err(Error::NotProductOwner);
        }
        self.retire_product(p);
        Ok(single(Effect::Deposit(Event::ProductUpdated { product_id })))
    }
}

} // verus!
