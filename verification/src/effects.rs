//! Building the lists of effects that operations hand to the host.
use crate::keys::{copy_bytes, copy_optional_bytes, optional_bytes, AccountId};
use crate::model::{manual_effects, response_effects, timeout_effects, verdict_effects};
use crate::types::{Effect, EffectView, Event, VerifiedClaim};
use vstd::prelude::*;

verus! {

/// Adds one effect at the end.
pub(crate) fn push_effect(effects: &mut Vec<Effect>, effect: Effect)
    ensures
        final(effects).deep_view() == old(effects).deep_view().push(effect@),
{
    effects.push(effect);
}

/// A list of one effect.
pub(crate) fn single(effect: Effect) -> (effects: Vec<Effect>)
    ensures
        effects.deep_view() == seq![effect@],
{
    let mut effects = Vec::new();
    effects.push(effect);
    effects
}

/// A list of no effects.
pub(crate) fn none() -> (effects: Vec<Effect>)
    ensures
        effects.deep_view() == Seq::<EffectView>::empty(),
{
    let effects = Vec::new();
    effects
}

/// Adds the announcement that a product's origin stands verified.
fn push_origin_verified(effects: &mut Vec<Effect>, product_id: &Vec<u8>)
    ensures
        final(effects).deep_view() == old(effects).deep_view().push(
            EffectView::Deposit(
                crate::types::EventView::OriginVerified { product_id: product_id@, verified: true },
            ),
        ),
{
    push_effect(
        effects,
        Effect::Deposit(Event::OriginVerified { product_id: copy_bytes(product_id), verified: true }),
    );
}

/// Adds what the host does when a claim is settled by hand.
pub(crate) fn push_manual_effects(
    effects: &mut Vec<Effect>,
    product_id: &Vec<u8>,
    claim: &VerifiedClaim,
    approved: bool,
    reason: &Option<Vec<u8>>,
    resolver: AccountId,
    admin: AccountId,
)
    ensures
        final(effects).deep_view() == old(effects).deep_view() + manual_effects(
            product_id@,
            claim@,
            approved,
            optional_bytes(*reason),
            resolver,
            admin,
        ),
{
    if approved && claim.claim.claim_type.is_origin_country() {
        push_origin_verified(effects, product_id);
    }
    push_effect(effects, Effect::Unreserve { who: claim.submitter, amount: claim.fee });
    if approved {
        let verifier_share = claim.fee / 2;
        let treasury_share = claim.fee - verifier_share;
        push_effect(
            effects,
            Effect::Transfer { from: claim.submitter, to: resolver, amount: verifier_share },
        );
        push_effect(
            effects,
            Effect::Transfer { from: claim.submitter, to: admin, amount: treasury_share },
        );
    }
    push_effect(
        effects,
        Effect::Deposit(
            Event::ClaimVerified {
                product_id: copy_bytes(product_id),
                claim_id: copy_bytes(&claim.claim_id),
                claim_type: claim.claim.claim_type.duplicate(),
                success: approved,
                reason: copy_optional_bytes(reason),
            },
        ),
    );
}

/// Adds what the host does when the scheduler settles a claim by a verdict.
pub(crate) fn push_verdict_effects(
    effects: &mut Vec<Effect>,
    product_id: &Vec<u8>,
    claim: &VerifiedClaim,
    success: bool,
    reason: Option<Vec<u8>>,
)
    ensures
        final(effects).deep_view() == old(effects).deep_view() + verdict_effects(
            product_id@,
            claim@,
            success,
            optional_bytes(reason),
        ),
{
    if success && claim.claim.claim_type.is_origin_country() {
        push_origin_verified(effects, product_id);
    }
    push_effect(effects, Effect::Unreserve { who: claim.submitter, amount: claim.fee });
    push_effect(
        effects,
        Effect::Deposit(
            Event::ClaimVerified {
                product_id: copy_bytes(product_id),
                claim_id: copy_bytes(&claim.claim_id),
                claim_type: claim.claim.claim_type.duplicate(),
                success,
                reason,
            },
        ),
    );
}

/// Adds what the host does when a claim's deadline has passed.
pub(crate) fn push_timeout_effects(effects: &mut Vec<Effect>, claim: &VerifiedClaim)
    ensures
        final(effects).deep_view() == old(effects).deep_view() + timeout_effects(claim@),
{
    push_effect(effects, Effect::Unreserve { who: claim.submitter, amount: claim.fee });
    push_effect(
        effects,
        Effect::Deposit(Event::VerificationTimedOut { claim_id: copy_bytes(&claim.claim_id) }),
    );
}

/// Adds what the host does when a counterparty chain settles a claim.
pub(crate) fn push_response_effects(
    effects: &mut Vec<Effect>,
    product_id: &Vec<u8>,
    claim: &VerifiedClaim,
    from_para_id: u32,
    success: bool,
)
    ensures
        final(effects).deep_view() == old(effects).deep_view() + response_effects(
            product_id@,
            claim@,
            from_para_id,
            success,
        ),
{
    if success && claim.claim.claim_type.is_origin_country() {
        push_origin_verified(effects, product_id);
    }
    push_effect(
        effects,
        Effect::Deposit(
            Event::CrossChainVerificationReceived {
                from_para_id,
                claim_id: copy_bytes(&claim.claim_id),
                success,
            },
        ),
    );
    push_effect(effects, Effect::Unreserve { who: claim.submitter, amount: claim.fee });
}

} // verus!
