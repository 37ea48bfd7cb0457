//! Claims, verdicts and cross-chain messages, and the verifiers that judge a
//! claim's proof.
use crate::keys::{bytes_eq, copy_bytes};
use vstd::prelude::*;

verus! {

/// What a claim asserts about a product.
#[derive(Clone, Debug, PartialEq, Eq)]
pub enum ClaimType {
    /// The country the product comes from.
    OriginCountry,
    /// How the product was manufactured.
    Manufacturing,
    /// How the product was shipped.
    Shipping,
    /// How the product passed customs.
    Customs,
    /// A certificate issued by a third party.
    Certification,
    /// Any other kind of claim, told apart by its tag.
    Custom(Vec<u8>),
}

/// The mathematical value of a [`ClaimType`].
pub ghost enum ClaimTypeView {
    OriginCountry,
    Manufacturing,
    Shipping,
    Customs,
    Certification,
    Custom(Seq<u8>),
}

impl View for ClaimType {
    type V = ClaimTypeView;

    open spec fn view(&self) -> ClaimTypeView {
        match self {
            ClaimType::OriginCountry => ClaimTypeView::OriginCountry,
            ClaimType::Manufacturing => ClaimTypeView::Manufacturing,
            ClaimType::Shipping => ClaimTypeView::Shipping,
            ClaimType::Customs => ClaimTypeView::Customs,
            ClaimType::Certification => ClaimTypeView::Certification,
            ClaimType::Custom(tag) => ClaimTypeView::Custom(tag@),
        }
    }
}

impl DeepView for ClaimType {
    type V = ClaimTypeView;

    open spec fn deep_view(&self) -> ClaimTypeView {
        self@
    }
}

impl ClaimType {
    /// A fresh value of the same claim type.
    pub fn duplicate(&self) -> (copy: ClaimType)
        ensures
            copy@ == self@,
    {
        match self {
            ClaimType::OriginCountry => ClaimType::OriginCountry,
            ClaimType::Manufacturing => ClaimType::Manufacturing,
            ClaimType::Shipping => ClaimType::Shipping,
            ClaimType::Customs => ClaimType::Customs,
            ClaimType::Certification => ClaimType::Certification,
            ClaimType::Custom(tag) => ClaimType::Custom(copy_bytes(tag)),
        }
    }

    /// Whether two claim types are the same, tags included.
    pub fn same_as(&self, other: &ClaimType) -> (same: bool)
        ensures
            same == (self@ == other@),
    {
        match (self, other) {
            (ClaimType::OriginCountry, ClaimType::OriginCountry) => true,
            (ClaimType::Manufacturing, ClaimType::Manufacturing) => true,
            (ClaimType::Shipping, ClaimType::Shipping) => true,
            (ClaimType::Customs, ClaimType::Customs) => true,
            (ClaimType::Certification, ClaimType::Certification) => true,
            (ClaimType::Custom(a), ClaimType::Custom(b)) => bytes_eq(a, b),
            _ => false,
        }
    }

    /// Whether the claim is about the country of origin.
    pub fn is_origin_country(&self) -> (origin: bool)
        ensures
            origin == (self@ is OriginCountry),
    {
        match self {
            ClaimType::OriginCountry => true,
            _ => false,
        }
    }
}

/// A claim as its submitter hands it in: the assertion and its opaque proof.
#[derive(Clone, Debug, PartialEq, Eq)]
pub struct ZkClaim {
    /// What is claimed.
    pub claim_type: ClaimType,
    /// The public inputs the proof is checked against.
    pub public_inputs: Vec<u8>,
    /// The proof itself.
    pub proof: Vec<u8>,
    /// Anything else the submitter wants on record.
    pub metadata: Vec<u8>,
    /// When the submitter made the claim.
    pub timestamp: u64,
}

/// The mathematical value of a [`ZkClaim`].
pub ghost struct ZkClaimView {
    pub claim_type: ClaimTypeView,
    pub public_inputs: Seq<u8>,
    pub proof: Seq<u8>,
    pub metadata: Seq<u8>,
    pub timestamp: u64,
}

impl View for ZkClaim {
    type V = ZkClaimView;

    open spec fn view(&self) -> ZkClaimView {
        ZkClaimView {
            claim_type: self.claim_type@,
            public_inputs: self.public_inputs@,
            proof: self.proof@,
            metadata: self.metadata@,
            timestamp: self.timestamp,
        }
    }
}

impl DeepView for ZkClaim {
    type V = ZkClaimView;

    open spec fn deep_view(&self) -> ZkClaimView {
        self@
    }
}

impl ZkClaim {
    /// A fresh claim with the same contents.
    pub fn duplicate(&self) -> (copy: ZkClaim)
        ensures
            copy@ == self@,
    {
        ZkClaim {
            claim_type: self.claim_type.duplicate(),
            public_inputs: copy_bytes(&self.public_inputs),
            proof: copy_bytes(&self.proof),
            metadata: copy_bytes(&self.metadata),
            timestamp: self.timestamp,
        }
    }
}

/// What a verifier, local or remote, says of a claim.
#[derive(Clone, Debug, PartialEq, Eq)]
pub enum VerificationResult {
    /// The proof holds.
    Success,
    /// The proof does not hold, for the given reason.
    Failure(Vec<u8>),
    /// No verdict yet.
    Pending,
    /// No verdict can ever be reached.
    Impossible,
}

/// The mathematical value of a [`VerificationResult`].
pub ghost enum VerificationResultView {
    Success,
    Failure(Seq<u8>),
    Pending,
    Impossible,
}

impl View for VerificationResult {
    type V = VerificationResultView;

    open spec fn view(&self) -> VerificationResultView {
        match self {
            VerificationResult::Success => VerificationResultView::Success,
            VerificationResult::Failure(reason) => VerificationResultView::Failure(reason@),
            VerificationResult::Pending => VerificationResultView::Pending,
            VerificationResult::Impossible => VerificationResultView::Impossible,
        }
    }
}

/// A message exchanged with a counterparty chain.
#[derive(Clone, Debug, PartialEq, Eq)]
pub enum CrossChainMessage {
    /// Asks the counterparty to verify a claim.
    VerificationRequest(ZkClaim),
    /// The counterparty's answer to an earlier request.
    VerificationResponse {
        /// The claim the answer is about.
        claim_id: Vec<u8>,
        /// The counterparty's verdict.
        result: VerificationResult,
    },
    /// The counterparty withdrew a credential.
    CredentialRevocation {
        /// The credential withdrawn.
        credential_id: Vec<u8>,
        /// Why it was withdrawn.
        reason: Vec<u8>,
    },
}

/// The mathematical value of a [`CrossChainMessage`].
pub ghost enum CrossChainMessageView {
    VerificationRequest(ZkClaimView),
    VerificationResponse { claim_id: Seq<u8>, result: VerificationResultView },
    CredentialRevocation { credential_id: Seq<u8>, reason: Seq<u8> },
}

impl View for CrossChainMessage {
    type V = CrossChainMessageView;

    open spec fn view(&self) -> CrossChainMessageView {
        match self {
            CrossChainMessage::VerificationRequest(claim) => CrossChainMessageView::VerificationRequest(
                claim@,
            ),
            CrossChainMessage::VerificationResponse { claim_id, result } => {
                CrossChainMessageView::VerificationResponse { claim_id: claim_id@, result: result@ }
            },
            CrossChainMessage::CredentialRevocation { credential_id, reason } => {
                CrossChainMessageView::CredentialRevocation {
                    credential_id: credential_id@,
                    reason: reason@,
                }
            },
        }
    }
}

/// A judge of proofs. The scheduler asks it once for every local claim it
/// examines before the claim's deadline.
///
/// The verdict is a function of the claim alone: asked twice about the same
/// claim, a verifier answers the same.
pub trait ClaimVerifier {
    /// The verdict on a claim. A verifier says here what it decides; one
    /// that does not say leaves its verdicts open.
    open spec fn verdict(&self, claim: ZkClaimView) -> VerificationResultView {
        arbitrary()
    }

    /// Judges a claim.
    fn evaluate(&self, claim: &ZkClaim) -> (result: VerificationResult)
        ensures
            result@ == self.verdict(claim@),
    ;
}

/// "Empty proof provided"
pub open spec fn reason_empty_proof() -> Seq<u8> {
    seq![
        69u8, 109u8, 112u8, 116u8, 121u8, 32u8, 112u8, 114u8, 111u8, 111u8, 102u8, 32u8, 112u8,
        114u8, 111u8, 118u8, 105u8, 100u8, 101u8, 100u8,
    ]
}

/// "Invalid proof format"
pub open spec fn reason_invalid_format() -> Seq<u8> {
    seq![
        73u8, 110u8, 118u8, 97u8, 108u8, 105u8, 100u8, 32u8, 112u8, 114u8, 111u8, 111u8, 102u8,
        32u8, 102u8, 111u8, 114u8, 109u8, 97u8, 116u8,
    ]
}

/// "Resolved DID data"
pub open spec fn resolved_did_data() -> Seq<u8> {
    seq![
        82u8, 101u8, 115u8, 111u8, 108u8, 118u8, 101u8, 100u8, 32u8, 68u8, 73u8, 68u8, 32u8,
        100u8, 97u8, 116u8, 97u8,
    ]
}

/// "Empty proof data"
pub open spec fn reason_empty_proof_data() -> Seq<u8> {
    seq![
        69u8, 109u8, 112u8, 116u8, 121u8, 32u8, 112u8, 114u8, 111u8, 111u8, 102u8, 32u8, 100u8,
        97u8, 116u8, 97u8,
    ]
}

/// The built-in verifier. It reads the first byte of a proof of two bytes or
/// more: 1 accepts the claim, 2 defers the verdict; anything else is refused.
pub struct PopApiClient;

impl PopApiClient {
    /// The verdict of the built-in verifier.
    pub open spec fn spec_verify_zk_claim(claim: ZkClaimView) -> VerificationResultView {
        if claim.proof.len() == 0 {
            VerificationResultView::Failure(reason_empty_proof())
        } else if claim.proof.len() > 1 && claim.proof[0] == 1u8 {
            VerificationResultView::Success
        } else if claim.proof.len() > 1 && claim.proof[0] == 2u8 {
            VerificationResultView::Pending
        } else {
            VerificationResultView::Failure(reason_invalid_format())
        }
    }

    /// Judges a claim by the first byte of its proof.
    pub fn verify_zk_claim(claim: &ZkClaim) -> (result: VerificationResult)
        ensures
            result@ == Self::spec_verify_zk_claim(claim@),
    {
        if claim.proof.len() == 0 {
            let reason = vec![
                69u8, 109u8, 112u8, 116u8, 121u8, 32u8, 112u8, 114u8, 111u8, 111u8, 102u8, 32u8,
                112u8, 114u8, 111u8, 118u8, 105u8, 100u8, 101u8, 100u8,
            ];
            return VerificationResult::Failure(reason);
        }
        if claim.proof.len() > 1 && claim.proof[0] == 1u8 {
            return VerificationResult::Success;
        }
        if claim.proof.len() > 1 && claim.proof[0] == 2u8 {
            return VerificationResult::Pending;
        }
        let reason = vec![
            73u8, 110u8, 118u8, 97u8, 108u8, 105u8, 100u8, 32u8, 112u8, 114u8, 111u8, 111u8,
            102u8, 32u8, 102u8, 111u8, 114u8, 109u8, 97u8, 116u8,
        ];
        VerificationResult::Failure(reason)
    }

    /// Resolves a decentralized identifier. The empty identifier resolves to
    /// nothing, every other one to the same fixed record.
    pub fn resolve_did(did: &Vec<u8>) -> (resolved: Option<Vec<u8>>)
        ensures
            did@.len() == 0 ==> resolved is None,
            did@.len() > 0 ==> resolved is Some && resolved->0@ == resolved_did_data(),
    {
        if did.len() == 0 {
            return None;
        }
        let data = vec![
            82u8, 101u8, 115u8, 111u8, 108u8, 118u8, 101u8, 100u8, 32u8, 68u8, 73u8, 68u8, 32u8,
            100u8, 97u8, 116u8, 97u8,
        ];
        Some(data)
    }

    /// Whether a credential is still good: every credential with a name is.
    pub fn check_credential_status(credential_id: &Vec<u8>) -> (valid: bool)
        ensures
            valid == (credential_id@.len() > 0),
    {
        credential_id.len() != 0
    }
}

impl ClaimVerifier for PopApiClient {
    open spec fn verdict(&self, claim: ZkClaimView) -> VerificationResultView {
        Self::spec_verify_zk_claim(claim)
    }

    fn evaluate(&self, claim: &ZkClaim) -> (result: VerificationResult) {
        Self::verify_zk_claim(claim)
    }
}

/// A verifier that accepts every claim with a proof in it.
pub struct ZkVerifier;

impl ZkVerifier {
    /// The verdict of the accepting verifier.
    pub open spec fn spec_verify_claim(claim: ZkClaimView) -> VerificationResultView {
        if claim.proof.len() == 0 {
            VerificationResultView::Failure(reason_empty_proof_data())
        } else {
            VerificationResultView::Success
        }
    }

    /// Accepts the claim unless its proof is empty.
    pub fn verify_claim(claim: &ZkClaim) -> (result: VerificationResult)
        ensures
            result@ == Self::spec_verify_claim(claim@),
    {
        if claim.proof.len() == 0 {
            let reason = vec![
                69u8, 109u8, 112u8, 116u8, 121u8, 32u8, 112u8, 114u8, 111u8, 111u8, 102u8, 32u8,
                100u8, 97u8, 116u8, 97u8,
            ];
            return VerificationResult::Failure(reason);
        }
        VerificationResult::Success
    }
}

impl ClaimVerifier for ZkVerifier {
    open spec fn verdict(&self, claim: ZkClaimView) -> VerificationResultView {
        Self::spec_verify_claim(claim)
    }

    fn evaluate(&self, claim: &ZkClaim) -> (result: VerificationResult) {
        Self::verify_claim(claim)
    }
}

} // verus!
