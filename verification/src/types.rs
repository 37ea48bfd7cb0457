//! Products, claims, errors and the effects that operations hand to the host.
use crate::bounded::{metadata_bytes, metadata_clone, Metadata};
use crate::keys::{copy_bytes, AccountId, Balance, BlockNumber};
use crate::runtime_integration::{ClaimType, ClaimTypeView, ZkClaim, ZkClaimView};
use vstd::prelude::*;

verus! {

/// The fixed parameters of a pallet.
#[derive(Clone, Copy, Debug, PartialEq, Eq, Structural)]
pub struct Config {
    /// The administrator: the one account that may revoke claims, set fees
    /// and name verifiers.
    pub admin_account: AccountId,
    /// The fee for an origin-country claim where genesis names none.
    pub verification_fee: Balance,
    /// How many ticks a local claim may stay pending; a cross-chain claim
    /// may stay twice as long.
    pub verification_timeout: BlockNumber,
    /// How many pending entries one scheduler tick may examine.
    pub verification_limit: u32,
}

/// What a piece of work costs the host: computation time on reference
/// hardware, and the size of the proof of validity.
#[derive(Clone, Copy, Debug, PartialEq, Eq, Structural)]
pub struct Weight {
    /// The computation time.
    pub ref_time: u64,
    /// The proof size.
    pub proof_size: u64,
}

impl Weight {
    /// The sum of two weights, each part staying at the largest number
    /// where the sum would pass it.
    pub open spec fn plus(self, rhs: Weight) -> Weight {
        Weight {
            ref_time: if self.ref_time + rhs.ref_time > u64::MAX {
                u64::MAX
            } else {
                (self.ref_time + rhs.ref_time) as u64
            },
            proof_size: if self.proof_size + rhs.proof_size > u64::MAX {
                u64::MAX
            } else {
                (self.proof_size + rhs.proof_size) as u64
            },
        }
    }

    /// The weight with these parts.
    pub fn from_parts(ref_time: u64, proof_size: u64) -> (weight: Weight)
        ensures
            weight == (Weight { ref_time, proof_size }),
    {
        Weight { ref_time, proof_size }
    }

    /// The weight of no work.
    pub fn zero() -> (weight: Weight)
        ensures
            weight == (Weight { ref_time: 0, proof_size: 0 }),
    {
        Weight { ref_time: 0, proof_size: 0 }
    }

    /// The computation time.
    pub fn ref_time(&self) -> (ref_time: u64)
        ensures
            ref_time == self.ref_time,
    {
        self.ref_time
    }

    /// The proof size.
    pub fn proof_size(&self) -> (proof_size: u64)
        ensures
            proof_size == self.proof_size,
    {
        self.proof_size
    }

    /// The sum of two weights, each part staying at the largest number
    /// where the sum would pass it.
    pub fn saturating_add(self, rhs: Weight) -> (sum: Weight)
        ensures
            sum == self.plus(rhs),
    {
        Weight {
            ref_time: if self.ref_time > u64::MAX - rhs.ref_time {
                u64::MAX
            } else {
                self.ref_time + rhs.ref_time
            },
            proof_size: if self.proof_size > u64::MAX - rhs.proof_size {
                u64::MAX
            } else {
                self.proof_size + rhs.proof_size
            },
        }
    }
}

/// Why an operation was refused.
#[derive(Clone, Copy, Debug, PartialEq, Eq, Structural)]
pub enum Error {
    /// The product ID already exists.
    ProductAlreadyExists,
    /// The product does not exist.
    ProductNotFound,
    /// The caller is not the owner of the product.
    NotProductOwner,
    /// A claim or product identifier, or a proof, is empty.
    InvalidClaimData,
    /// The product holds as many claims as it may.
    TooManyClaims,
    /// The fee could not be put in escrow.
    VerificationFeesNotPaid,
    /// A verification is already in progress. No operation refuses with
    /// this today.
    VerificationInProgress,
    /// The verification result is not acceptable. No operation refuses with
    /// this today.
    InvalidVerificationResult,
    /// The caller may not verify claims.
    NotAuthorizedVerifier,
    /// The product has been deactivated.
    ProductNotActive,
    /// The product holds no claim of that name.
    ClaimNotFound,
    /// The claim is not in the state the operation needs.
    InvalidClaimState,
    /// The metadata is too long.
    MetadataTooLong,
    /// The country code is not two bytes long.
    InvalidCountryCode,
    /// The tariff classification code is empty.
    InvalidHsCode,
    /// Only the administrator may do this.
    RequiresAdminPrivileges,
    /// The owner's decentralized identifier does not resolve. The built-in
    /// resolver resolves every identifier that is not empty, and an empty
    /// one is not kept, so that no registration is refused with this today.
    DIDResolutionFailed,
    /// The request could not be delivered to the counterparty chain.
    CrossChainError,
    /// The claim has been verified already. No operation refuses with this
    /// today.
    ClaimAlreadyVerified,
    /// The operation is not supported. No operation refuses with this
    /// today.
    NotSupported,
    /// The product already holds a claim of that name.
    ClaimIdAlreadyExists,
}

/// Where a claim stands.
#[derive(Clone, Debug, PartialEq, Eq)]
pub enum VerificationStatus {
    /// Waiting for a verdict.
    Pending,
    /// Accepted.
    Approved,
    /// Refused, for the given reason.
    Rejected(Vec<u8>),
    /// No verdict could be reached, for the given reason.
    Failed(Vec<u8>),
    /// The deadline passed before a verdict.
    TimedOut,
    /// Accepted once and later withdrawn, for the given reason.
    Revoked(Vec<u8>),
}

/// The mathematical value of a [`VerificationStatus`].
pub ghost enum VerificationStatusView {
    Pending,
    Approved,
    Rejected(Seq<u8>),
    Failed(Seq<u8>),
    TimedOut,
    Revoked(Seq<u8>),
}

impl View for VerificationStatus {
    type V = VerificationStatusView;

    open spec fn view(&self) -> VerificationStatusView {
        match self {
            VerificationStatus::Pending => VerificationStatusView::Pending,
            VerificationStatus::Approved => VerificationStatusView::Approved,
            VerificationStatus::Rejected(reason) => VerificationStatusView::Rejected(reason@),
            VerificationStatus::Failed(reason) => VerificationStatusView::Failed(reason@),
            VerificationStatus::TimedOut => VerificationStatusView::TimedOut,
            VerificationStatus::Revoked(reason) => VerificationStatusView::Revoked(reason@),
        }
    }
}

impl VerificationStatusView {
    /// A status a pending claim is settled with.
    pub open spec fn is_settlement(self) -> bool {
        self is Approved || self is Rejected || self is Failed || self is TimedOut
    }

    /// Whether a claim in this status may be in status `next` after an
    /// operation that revokes nothing: it may stay as it is, and a pending
    /// claim may be settled.
    pub open spec fn may_settle_as(self, next: VerificationStatusView) -> bool {
        ||| next == self
        ||| self is Pending && next.is_settlement()
    }

    /// Whether a claim in this status may be in status `later` at any later
    /// time: it may stay as it is, a pending claim may come to any status,
    /// and an approved claim may be revoked.
    pub open spec fn may_end_as(self, later: VerificationStatusView) -> bool {
        ||| later == self
        ||| self is Pending
        ||| self is Approved && later is Revoked
    }

    /// Whether a claim in this status may be in status `next` after an
    /// operation: it may stay as it is, a pending claim may be settled, and
    /// an approved claim may be revoked.
    pub open spec fn may_become(self, next: VerificationStatusView) -> bool {
        ||| self.may_settle_as(next)
        ||| self is Approved && next is Revoked
    }
}

impl VerificationStatus {
    /// A fresh value of the same status.
    pub fn duplicate(&self) -> (copy: VerificationStatus)
        ensures
            copy@ == self@,
    {
        match self {
            VerificationStatus::Pending => VerificationStatus::Pending,
            VerificationStatus::Approved => VerificationStatus::Approved,
            VerificationStatus::Rejected(reason) => VerificationStatus::Rejected(copy_bytes(reason)),
            VerificationStatus::Failed(reason) => VerificationStatus::Failed(copy_bytes(reason)),
            VerificationStatus::TimedOut => VerificationStatus::TimedOut,
            VerificationStatus::Revoked(reason) => VerificationStatus::Revoked(copy_bytes(reason)),
        }
    }

    /// Whether the claim still waits for a verdict.
    pub fn is_pending(&self) -> (pending: bool)
        ensures
            pending == (self@ is Pending),
    {
        match self {
            VerificationStatus::Pending => true,
            _ => false,
        }
    }

    /// Whether the claim stands approved.
    pub fn is_approved(&self) -> (approved: bool)
        ensures
            approved == (self@ is Approved),
    {
        match self {
            VerificationStatus::Approved => true,
            _ => false,
        }
    }
}

/// A claim on record, with its lifecycle.
#[derive(Clone, Debug, PartialEq, Eq)]
pub struct VerifiedClaim {
    /// The claim as handed in.
    pub claim: ZkClaim,
    /// Who handed it in.
    pub submitter: AccountId,
    /// When it was handed in.
    pub submitted_at: BlockNumber,
    /// Where it stands.
    pub status: VerificationStatus,
    /// Who settled it by hand, if anyone did.
    pub verifier: Option<AccountId>,
    /// When a verdict settled it, if one did.
    pub verified_at: Option<BlockNumber>,
    /// Its name, unique within its product.
    pub claim_id: Vec<u8>,
    /// Whether a counterparty chain is to verify it.
    pub is_cross_chain: bool,
    /// The counterparty chain, for a cross-chain claim.
    pub source_para_id: Option<u32>,
    /// The fee put in escrow when it was handed in.
    pub fee: Balance,
}

/// The mathematical value of a [`VerifiedClaim`].
pub ghost struct VerifiedClaimView {
    pub claim: ZkClaimView,
    pub submitter: AccountId,
    pub submitted_at: BlockNumber,
    pub status: VerificationStatusView,
    pub verifier: Option<AccountId>,
    pub verified_at: Option<BlockNumber>,
    pub claim_id: Seq<u8>,
    pub is_cross_chain: bool,
    pub source_para_id: Option<u32>,
    pub fee: Balance,
}

impl View for VerifiedClaim {
    type V = VerifiedClaimView;

    open spec fn view(&self) -> VerifiedClaimView {
        VerifiedClaimView {
            claim: self.claim@,
            submitter: self.submitter,
            submitted_at: self.submitted_at,
            status: self.status@,
            verifier: self.verifier,
            verified_at: self.verified_at,
            claim_id: self.claim_id@,
            is_cross_chain: self.is_cross_chain,
            source_para_id: self.source_para_id,
            fee: self.fee,
        }
    }
}

impl DeepView for VerifiedClaim {
    type V = VerifiedClaimView;

    open spec fn deep_view(&self) -> VerifiedClaimView {
        self@
    }
}

impl VerifiedClaim {
    /// A fresh claim record with the same contents.
    pub fn duplicate(&self) -> (copy: VerifiedClaim)
        ensures
            copy@ == self@,
    {
        VerifiedClaim {
            claim: self.claim.duplicate(),
            submitter: self.submitter,
            submitted_at: self.submitted_at,
            status: self.status.duplicate(),
            verifier: self.verifier,
            verified_at: self.verified_at,
            claim_id: copy_bytes(&self.claim_id),
            is_cross_chain: self.is_cross_chain,
            source_para_id: self.source_para_id,
            fee: self.fee,
        }
    }
}

/// A registered product.
#[derive(Debug, PartialEq, Eq)]
pub struct Product {
    /// Its name in the registry, unique.
    pub id: Vec<u8>,
    /// The account that registered it.
    pub owner: AccountId,
    /// What it is called.
    pub name: Vec<u8>,
    /// What it is.
    pub description: Vec<u8>,
    /// The two-byte code of the country it comes from.
    pub origin_country: Vec<u8>,
    /// Its tariff classification code.
    pub hs_code: Vec<u8>,
    /// When it was made.
    pub manufacture_date: u64,
    /// Whether its origin stands verified.
    pub origin_verified: bool,
    /// Anything else on record about it.
    pub metadata: Metadata,
    /// When it was registered.
    pub registered_at: BlockNumber,
    /// Whether it still takes claims.
    pub active: bool,
}

/// The mathematical value of a [`Product`].
pub ghost struct ProductView {
    pub id: Seq<u8>,
    pub owner: AccountId,
    pub name: Seq<u8>,
    pub description: Seq<u8>,
    pub origin_country: Seq<u8>,
    pub hs_code: Seq<u8>,
    pub manufacture_date: u64,
    pub origin_verified: bool,
    pub metadata: Seq<u8>,
    pub registered_at: BlockNumber,
    pub active: bool,
}

impl View for Product {
    type V = ProductView;

    open spec fn view(&self) -> ProductView {
        ProductView {
            id: self.id@,
            owner: self.owner,
            name: self.name@,
            description: self.description@,
            origin_country: self.origin_country@,
            hs_code: self.hs_code@,
            manufacture_date: self.manufacture_date,
            origin_verified: self.origin_verified,
            metadata: metadata_bytes(self.metadata),
            registered_at: self.registered_at,
            active: self.active,
        }
    }
}

impl Product {
    /// A fresh product record with the same contents.
    pub fn duplicate(&self) -> (copy: Product)
        ensures
            copy@ == self@,
    {
        Product {
            id: copy_bytes(&self.id),
            owner: self.owner,
            name: copy_bytes(&self.name),
            description: copy_bytes(&self.description),
            origin_country: copy_bytes(&self.origin_country),
            hs_code: copy_bytes(&self.hs_code),
            manufacture_date: self.manufacture_date,
            origin_verified: self.origin_verified,
            metadata: metadata_clone(&self.metadata),
            registered_at: self.registered_at,
            active: self.active,
        }
    }
}

/// The short form of a product: who owns it, what it is, and whether its
/// origin stands verified.
#[derive(Clone, Debug, PartialEq, Eq)]
pub struct ProductInfo {
    /// The account that registered the product.
    pub owner: AccountId,
    /// What the product is called.
    pub name: Vec<u8>,
    /// What the product is.
    pub description: Vec<u8>,
    /// Whether the product's origin stands verified.
    pub verified: bool,
}

/// The mathematical value of a [`ProductInfo`].
pub ghost struct ProductInfoView {
    pub owner: AccountId,
    pub name: Seq<u8>,
    pub description: Seq<u8>,
    pub verified: bool,
}

impl View for ProductInfo {
    type V = ProductInfoView;

    open spec fn view(&self) -> ProductInfoView {
        ProductInfoView {
            owner: self.owner,
            name: self.name@,
            description: self.description@,
            verified: self.verified,
        }
    }
}

/// Something that happened, for observers outside the pallet.
#[derive(Clone, Debug, PartialEq, Eq)]
pub enum Event {
    /// A product was registered.
    ProductRegistered { product_id: Vec<u8>, owner: AccountId },
    /// A local claim was handed in.
    ClaimSubmitted {
        product_id: Vec<u8>,
        claim_id: Vec<u8>,
        claim_type: ClaimType,
        submitter: AccountId,
    },
    /// A claim got its verdict, by hand or from the scheduler.
    ClaimVerified {
        product_id: Vec<u8>,
        claim_id: Vec<u8>,
        claim_type: ClaimType,
        success: bool,
        reason: Option<Vec<u8>>,
    },
    /// A product's origin flag was set or cleared.
    OriginVerified { product_id: Vec<u8>, verified: bool },
    /// The fee for a claim type was changed.
    VerificationFeeUpdated { claim_type: ClaimType, new_fee: Balance },
    /// An approved claim was withdrawn.
    ClaimRevoked { product_id: Vec<u8>, claim_id: Vec<u8>, reason: Vec<u8> },
    /// An account was named, or unnamed, as a verifier.
    VerifierAuthorizationChanged { account: AccountId, authorized: bool },
    /// A product's record was changed by its owner or the administrator.
    ProductUpdated { product_id: Vec<u8> },
    /// A cross-chain claim was handed in and its request sent.
    CrossChainVerificationSent { para_id: u32, claim_id: Vec<u8> },
    /// A counterparty chain answered.
    CrossChainVerificationReceived { from_para_id: u32, claim_id: Vec<u8>, success: bool },
    /// A claim's deadline passed.
    VerificationTimedOut { claim_id: Vec<u8> },
}

/// The mathematical value of an [`Event`].
#[allow(inconsistent_fields)]
pub ghost enum EventView {
    ProductRegistered { product_id: Seq<u8>, owner: AccountId },
    ClaimSubmitted {
        product_id: Seq<u8>,
        claim_id: Seq<u8>,
        claim_type: ClaimTypeView,
        submitter: AccountId,
    },
    ClaimVerified {
        product_id: Seq<u8>,
        claim_id: Seq<u8>,
        claim_type: ClaimTypeView,
        success: bool,
        reason: Option<Seq<u8>>,
    },
    OriginVerified { product_id: Seq<u8>, verified: bool },
    VerificationFeeUpdated { claim_type: ClaimTypeView, new_fee: Balance },
    ClaimRevoked { product_id: Seq<u8>, claim_id: Seq<u8>, reason: Seq<u8> },
    VerifierAuthorizationChanged { account: AccountId, authorized: bool },
    ProductUpdated { product_id: Seq<u8> },
    CrossChainVerificationSent { para_id: u32, claim_id: Seq<u8> },
    CrossChainVerificationReceived { from_para_id: u32, claim_id: Seq<u8>, success: bool },
    VerificationTimedOut { claim_id: Seq<u8> },
}

impl View for Event {
    type V = EventView;

    open spec fn view(&self) -> EventView {
        match self {
            Event::ProductRegistered { product_id, owner } => EventView::ProductRegistered {
                product_id: product_id@,
                owner: *owner,
            },
            Event::ClaimSubmitted { product_id, claim_id, claim_type, submitter } => {
                EventView::ClaimSubmitted {
                    product_id: product_id@,
                    claim_id: claim_id@,
                    claim_type: claim_type@,
                    submitter: *submitter,
                }
            },
            Event::ClaimVerified { product_id, claim_id, claim_type, success, reason } => {
                EventView::ClaimVerified {
                    product_id: product_id@,
                    claim_id: claim_id@,
                    claim_type: claim_type@,
                    success: *success,
                    reason: match reason {
                        Some(bytes) => Some(bytes@),
                        None => None,
                    },
                }
            },
            Event::OriginVerified { product_id, verified } => EventView::OriginVerified {
                product_id: product_id@,
                verified: *verified,
            },
            Event::VerificationFeeUpdated { claim_type, new_fee } => {
                EventView::VerificationFeeUpdated { claim_type: claim_type@, new_fee: *new_fee }
            },
            Event::ClaimRevoked { product_id, claim_id, reason } => EventView::ClaimRevoked {
                product_id: product_id@,
                claim_id: claim_id@,
                reason: reason@,
            },
            Event::VerifierAuthorizationChanged { account, authorized } => {
                EventView::VerifierAuthorizationChanged {
                    account: *account,
                    authorized: *authorized,
                }
            },
            Event::ProductUpdated { product_id } => EventView::ProductUpdated {
                product_id: product_id@,
            },
            Event::CrossChainVerificationSent { para_id, claim_id } => {
                EventView::CrossChainVerificationSent { para_id: *para_id, claim_id: claim_id@ }
            },
            Event::CrossChainVerificationReceived { from_para_id, claim_id, success } => {
                EventView::CrossChainVerificationReceived {
                    from_para_id: *from_para_id,
                    claim_id: claim_id@,
                    success: *success,
                }
            },
            Event::VerificationTimedOut { claim_id } => EventView::VerificationTimedOut {
                claim_id: claim_id@,
            },
        }
    }
}

/// What the host has to do after an operation, in the order given.
#[derive(Clone, Debug, PartialEq, Eq)]
pub enum Effect {
    /// Release `amount` of the reserved balance of `who`.
    Unreserve { who: AccountId, amount: Balance },
    /// Move `amount` from the free balance of `from` to `to`. Where the
    /// escrow service refuses, the host goes on with the next effect.
    Transfer { from: AccountId, to: AccountId, amount: Balance },
    /// Publish the event.
    Deposit(Event),
}

/// The mathematical value of an [`Effect`].
pub ghost enum EffectView {
    Unreserve { who: AccountId, amount: Balance },
    Transfer { from: AccountId, to: AccountId, amount: Balance },
    Deposit(EventView),
}

impl View for Effect {
    type V = EffectView;

    open spec fn view(&self) -> EffectView {
        match self {
            Effect::Unreserve { who, amount } => EffectView::Unreserve {
                who: *who,
                amount: *amount,
            },
            Effect::Transfer { from, to, amount } => EffectView::Transfer {
                from: *from,
                to: *to,
                amount: *amount,
            },
            Effect::Deposit(event) => EffectView::Deposit(event@),
        }
    }
}

impl DeepView for Effect {
    type V = EffectView;

    open spec fn deep_view(&self) -> EffectView {
        self@
    }
}

/// The effects of an operation that went through, or why it was refused.
pub open spec fn outcome_view(outcome: Result<Vec<Effect>, Error>) -> Result<
    Seq<EffectView>,
    Error,
> {
    match outcome {
        Ok(effects) => Ok(effects.deep_view()),
        Err(error) => Err(error),
    }
}

} // verus!
