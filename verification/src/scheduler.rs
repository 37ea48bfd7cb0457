//! The verification scheduler: what a tick of the host's clock does to the
//! claims that wait.
use crate::effects::{none, push_timeout_effects, push_verdict_effects};
use crate::keys::{copy_bytes, BlockNumber};
use crate::laws::{law_stays_well_formed, law_tick_bounded};
use crate::model::{reason_impossible, Call};
use crate::runtime_integration::{ClaimVerifier, VerificationResult};
use crate::storage::Pallet;
use crate::types::{Effect, VerificationStatus, Weight};
use vstd::prelude::*;

verus! {

/// What a scheduler tick did.
#[derive(Clone, Debug, PartialEq, Eq)]
pub struct TickReport {
    /// How many waiting entries the tick examined.
    pub examined: u32,
    /// What the host has to do, in order.
    pub effects: Vec<Effect>,
    /// What the tick cost.
    pub weight: Weight,
}

/// The reason recorded where the verifier can reach no verdict.
fn impossible() -> (reason: Vec<u8>)
    ensures
        reason@ == reason_impossible(),
{
    let reason = vec![
        86u8, 101u8, 114u8, 105u8, 102u8, 105u8, 99u8, 97u8, 116u8, 105u8, 111u8, 110u8, 32u8,
        105u8, 109u8, 112u8, 111u8, 115u8, 115u8, 105u8, 98u8, 108u8, 101u8,
    ];
    reason
}

impl Pallet {
    /// Where the claim of that name stands, product and claim, if the
    /// product exists and holds it.
    pub(crate) fn locate(&self, product_id: &Vec<u8>, claim_id: &Vec<u8>) -> (found: Option<
        (usize, usize),
    >)
        ensures
            match found {
                Some((p, c)) => {
                    &&& self@.locate(product_id@, claim_id@) == Some((p as int, c as int))
                    &&& p < self@.records.len()
                    &&& c < self@.records[p as int].claims.len()
                },
                None => self@.locate(product_id@, claim_id@) is None,
            },
    {
        match self.find_product(product_id) {
            Some(p) => match self.find_claim(p, claim_id) {
                Some(c) => Some((p, c)),
                None => None,
            },
            None => None,
        }
    }

    /// Lets the claim of that name time out: a pending claim is marked as
    /// timed out and its fee released; any other claim is left alone.
    pub(crate) fn handle_verification_timeout(
        &mut self,
        product_id: &Vec<u8>,
        claim_id: &Vec<u8>,
        effects: &mut Vec<Effect>,
    )
        ensures
            final(self)@ == old(self)@.time_out(product_id@, claim_id@).state,
            final(effects).deep_view() == old(effects).deep_view() + old(self)@.time_out(
                product_id@,
                claim_id@,
            ).effects,
    {
        if let Some((p, c)) = self.locate(product_id, claim_id) {
            let claim = self.claim(p, c);
            if claim.status.is_pending() {
                let verifier = claim.verifier;
                let verified_at = claim.verified_at;
                push_timeout_effects(effects, claim);
                self.settle(p, c, VerificationStatus::TimedOut, verifier, verified_at);
            }
        }
    }

    /// Asks the verifier about the claim of that name and settles the claim
    /// by its verdict. Says whether the claim goes on waiting.
    fn judge<V: ClaimVerifier>(
        &mut self,
        verifier: &V,
        product_id: &Vec<u8>,
        claim_id: &Vec<u8>,
        now: BlockNumber,
        effects: &mut Vec<Effect>,
    ) -> (kept: bool)
        ensures
            final(self)@ == old(self)@.judge(*verifier, product_id@, claim_id@, now).state,
            final(effects).deep_view() == old(effects).deep_view() + old(self)@.judge(
                *verifier,
                product_id@,
                claim_id@,
                now,
            ).effects,
            kept == old(self)@.judge(*verifier, product_id@, claim_id@, now).kept,
    {
        if let Some((p, c)) = self.locate(product_id, claim_id) {
            let claim = self.claim(p, c);
            if claim.status.is_pending() {
                match verifier.evaluate(&claim.claim) {
                    VerificationResult::Success => {
                        push_verdict_effects(effects, product_id, claim, true, None);
                        self.settle(p, c, VerificationStatus::Approved, None, Some(now));
                        return false;
                    },
                    VerificationResult::Failure(reason) => {
                        push_verdict_effects(
                            effects,
                            product_id,
                            claim,
                            false,
                            Some(copy_bytes(&reason)),
                        );
                        self.settle(p, c, VerificationStatus::Rejected(reason), None, Some(now));
                        return false;
                    },
                    VerificationResult::Pending => {
                        return true;
                    },
                    VerificationResult::Impossible => {
                        push_verdict_effects(effects, product_id, claim, false, Some(impossible()));
                        self.settle(
                            p,
                            c,
                            VerificationStatus::Failed(impossible()),
                            None,
                            Some(now),
                        );
                        return false;
                    },
                }
            }
        }
        false
    }

    /// Examines the local entry at `at`. Says whether the entry is still
    /// there.
    fn examine_pending<V: ClaimVerifier>(
        &mut self,
        verifier: &V,
        now: BlockNumber,
        at: usize,
        effects: &mut Vec<Effect>,
    ) -> (kept: bool)
        requires
            at < old(self)@.pending.len(),
        ensures
            final(self)@ == old(self)@.examine_pending(*verifier, now, at as int).state,
            final(effects).deep_view() == old(effects).deep_view() + old(self)@.examine_pending(
                *verifier,
                now,
                at as int,
            ).effects,
            kept == old(self)@.examine_pending(*verifier, now, at as int).kept,
    {
        let entry = self.pending_entry(at);
        let product_id = copy_bytes(&entry.product_id);
        let claim_id = copy_bytes(&entry.claim_id);
        let kept = if now >= entry.deadline {
            self.handle_verification_timeout(&product_id, &claim_id, effects);
            false
        } else {
            self.judge(verifier, &product_id, &claim_id, now, effects)
        };
        if !kept {
            self.remove_pending_at(at);
        }
        kept
    }

    /// Examines the cross-chain entry at `at`. Says whether the entry is
    /// still there.
    fn examine_cross_chain(&mut self, now: BlockNumber, at: usize, effects: &mut Vec<Effect>) -> (kept:
        bool)
        requires
            at < old(self)@.cross_chain.len(),
        ensures
            final(self)@ == old(self)@.examine_cross_chain(now, at as int).state,
            final(effects).deep_view() == old(effects).deep_view() + old(self)@.examine_cross_chain(
                now,
                at as int,
            ).effects,
            kept == old(self)@.examine_cross_chain(now, at as int).kept,
    {
        let entry = self.cross_chain_entry(at);
        if now >= entry.deadline {
            let product_id = copy_bytes(&entry.product_id);
            let claim_id = copy_bytes(&entry.claim_id);
            self.handle_verification_timeout(&product_id, &claim_id, effects);
            self.remove_cross_chain_at(at);
            false
        } else {
            true
        }
    }

    /// Runs one scheduler tick at time `n`.
    ///
    /// The tick examines the local entries in the order they were entered,
    /// and then the cross-chain entries, until it has examined as many
    /// entries as the configured limit allows or none is left. A local claim
    /// past its deadline times out; before its deadline the verifier is
    /// asked, and a verdict settles the claim. A cross-chain claim past its
    /// deadline times out; before it the claim goes on waiting for its
    /// answer. A settled claim leaves the list, and its fee is released.
    pub fn process_pending_verifications<V: ClaimVerifier>(
        &mut self,
        verifier: &V,
        n: BlockNumber,
    ) -> (report: TickReport)
        requires
            old(self).wf(),
        ensures
            final(self).wf(),
            final(self)@ == old(self)@.tick(*verifier, n).state,
            report.effects.deep_view() == old(self)@.tick(*verifier, n).effects,
            report.examined == old(self)@.tick(*verifier, n).examined,
            report.weight == old(self)@.tick(*verifier, n).weight,
            report.examined <= old(self)@.config.verification_limit,
    {
        proof {
            law_stays_well_formed(self@, Call::Tick { verifier: *verifier, now: n });
            law_tick_bounded(self@, *verifier, n);
        }
        let limit = self.config().verification_limit;
        let mut effects = none();
        let mut examined: u32 = 0;
        let mut weight = Weight::zero();
        let mut at: usize = 0;
        while examined < limit && at < self.pending_count()
            invariant
                examined <= limit,
                old(self)@.sweep_pending(*verifier, n, 0, limit as nat) == self@.sweep_pending(
                    *verifier,
                    n,
                    at as int,
                    (limit - examined) as nat,
                ).after(effects.deep_view(), examined as nat, weight),
            decreases limit - examined,
        {
            let ghost before = self@;
            let ghost done = effects.deep_view();
            let timed_out = n >= self.pending_entry(at).deadline;
            let kept = self.examine_pending(verifier, n, at, &mut effects);
            let cost = if timed_out {
                Weight::from_parts(5_000, 0)
            } else if kept {
                Weight::zero()
            } else {
                Weight::from_parts(10_000, 0)
            };
            proof {
                let first = before.examine_pending(*verifier, n, at as int);
                let rest = first.state.sweep_pending(
                    *verifier,
                    n,
                    if first.kept {
                        at + 1
                    } else {
                        at as int
                    },
                    (limit - examined - 1) as nat,
                );
                assert(done + (first.effects + rest.effects) =~= (done + first.effects)
                    + rest.effects);
            }
            weight = weight.saturating_add(cost);
            if kept {
                at += 1;
            }
            examined += 1;
        }
        let ghost between = self@;
        let budget = limit - examined;
        let mut more = none();
        let mut further: u32 = 0;
        let mut more_weight = Weight::zero();
        at = 0;
        while further < budget && at < self.cross_chain_count()
            invariant
                further <= budget,
                between.sweep_cross_chain(n, 0, budget as nat) == self@.sweep_cross_chain(
                    n,
                    at as int,
                    (budget - further) as nat,
                ).after(more.deep_view(), further as nat, more_weight),
            decreases budget - further,
        {
            let ghost before = self@;
            let ghost done = more.deep_view();
            let timed_out = n >= self.cross_chain_entry(at).deadline;
            let kept = self.examine_cross_chain(n, at, &mut more);
            let cost = if timed_out {
                Weight::from_parts(5_000, 0)
            } else {
                Weight::zero()
            };
            proof {
                let first = before.examine_cross_chain(n, at as int);
                let rest = first.state.sweep_cross_chain(
                    n,
                    if first.kept {
                        at + 1
                    } else {
                        at as int
                    },
                    (budget - further - 1) as nat,
                );
                assert(done + (first.effects + rest.effects) =~= (done + first.effects)
                    + rest.effects);
            }
            more_weight = more_weight.saturating_add(cost);
            if kept {
                at += 1;
            }
            further += 1;
        }
        effects.append(&mut more);
        TickReport {
            examined: examined + further,
            effects,
            weight: weight.saturating_add(more_weight),
        }
    }

    /// The hook the host calls at the start of tick `n`: runs the scheduler.
    pub fn on_initialize<V: ClaimVerifier>(&mut self, n: BlockNumber, verifier: &V) -> (report:
        TickReport)
        requires
            old(self).wf(),
        ensures
            final(self).wf(),
            final(self)@ == old(self)@.tick(*verifier, n).state,
            report.effects.deep_view() == old(self)@.tick(*verifier, n).effects,
            report.examined == old(self)@.tick(*verifier, n).examined,
            report.weight == old(self)@.tick(*verifier, n).weight,
            report.examined <= old(self)@.config.verification_limit,
    {
        proof {
            law_stays_well_formed(self@, Call::Tick { verifier: *verifier, now: n });
            law_tick_bounded(self@, *verifier, n);
        }
        self.process_pending_verifications(verifier, n)
    }
}

} // verus!
