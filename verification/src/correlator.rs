//! The cross-chain correlator: what an incoming message of a counterparty
//! chain does to the claim it is about.
use crate::effects::{none, push_response_effects};
use crate::keys::{copy_bytes, BlockNumber};
use crate::laws::law_stays_well_formed;
use crate::model::{reason_cross_chain_impossible, Call};
use crate::runtime_integration::{CrossChainMessage, PopApiClient, VerificationResult};
use crate::storage::{CrossChainVerification, Pallet};
use crate::types::{outcome_view, Effect, Error, VerificationStatus};
use vstd::prelude::*;

verus! {

/// The reason recorded where the counterparty can reach no verdict.
fn cross_chain_impossible() -> (reason: Vec<u8>)
    ensures
        reason@ == reason_cross_chain_impossible(),
{
    let reason = vec![
        67u8, 114u8, 111u8, 115u8, 115u8, 45u8, 99u8, 104u8, 97u8, 105u8, 110u8, 32u8, 118u8,
        101u8, 114u8, 105u8, 102u8, 105u8, 99u8, 97u8, 116u8, 105u8, 111u8, 110u8, 32u8, 105u8,
        109u8, 112u8, 111u8, 115u8, 115u8, 105u8, 98u8, 108u8, 101u8,
    ];
    reason
}

impl Pallet {
    /// Takes in a message from counterparty chain `para_id`, at time `now`.
    ///
    /// An answer to a verification request is matched to the waiting entry
    /// of its claim, which is removed; where no entry waits, because the
    /// claim was settled or timed out before, nothing happens. A verdict
    /// settles the claim and releases its fee: success approves it, failure
    /// rejects it for the reason given, "impossible" fails it. An answer of
    /// "pending" enters the claim again for the sender, with a deadline one
    /// timeout from now, which has to be a time the clock can reach. Every
    /// other message is taken in without effect. No message is refused.
    pub fn handle_cross_chain_message(
        &mut self,
        para_id: u32,
        message: CrossChainMessage,
        now: BlockNumber,
    ) -> (outcome: Result<Vec<Effect>, Error>)
        requires
            old(self).wf(),
            old(self)@.reenters(message@) ==> now + old(self)@.config.verification_timeout
                <= BlockNumber::MAX,
        ensures
            final(self).wf(),
            final(self)@ == old(self)@.handle_cross_chain_message(para_id, message@, now).state,
            outcome_view(outcome) == old(self)@.handle_cross_chain_message(
                para_id,
                message@,
                now,
            ).outcome,
            outcome is Ok,
    {
        proof {
            law_stays_well_formed::<PopApiClient>(
                self@,
                Call::HandleCrossChainMessage { para_id, message: message@, now },
            );
        }
        let (claim_id, result) = match message {
            CrossChainMessage::VerificationResponse { claim_id, result } => (claim_id, result),
            _ => {
                return Ok(none());
            },
        };
        let at = match self.find_cross_chain(&claim_id) {
            Some(at) => at,
            None => {
                return Ok(none());
            },
        };
        let product_id = copy_bytes(&self.cross_chain_entry(at).product_id);
        let mut effects = none();
        let (p, c) = match self.locate(&product_id, &claim_id) {
            Some(found) => found,
            None => {
                self.remove_cross_chain_at(at);
                return Ok(effects);
            },
        };
        let claim = self.claim(p, c);
        if !claim.status.is_pending() {
            self.remove_cross_chain_at(at);
            return Ok(effects);
        }
        let verifier = claim.verifier;
        match result {
            VerificationResult::Success => {
                push_response_effects(&mut effects, &product_id, claim, para_id, true);
                self.remove_cross_chain_at(at);
                self.settle(p, c, VerificationStatus::Approved, verifier, Some(now));
            },
            VerificationResult::Failure(reason) => {
                push_response_effects(&mut effects, &product_id, claim, para_id, false);
                self.remove_cross_chain_at(at);
                self.settle(p, c, VerificationStatus::Rejected(reason), verifier, Some(now));
            },
            VerificationResult::Impossible => {
                push_response_effects(&mut effects, &product_id, claim, para_id, false);
                self.remove_cross_chain_at(at);
                self.settle(
                    p,
                    c,
                    VerificationStatus::Failed(cross_chain_impossible()),
                    verifier,
                    Some(now),
                );
            },
            VerificationResult::Pending => {
                self.remove_cross_chain_at(at);
                self.push_cross_chain(
                    CrossChainVerification {
                        claim_id,
                        para_id,
                        product_id,
                        deadline: now + self.config().verification_timeout,
                    },
                );
            },
        }
        Ok(effects)
    }
}

} // verus!
