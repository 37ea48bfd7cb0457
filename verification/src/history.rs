//! How the states of a pallet relate over time: what may become of a
//! claim, a product, an origin flag, and of what is held in escrow.
use crate::model::{effects_of, Call, PalletView, ProductRecordView};
use crate::runtime_integration::ClaimVerifier;
use crate::types::{EffectView, ProductView, VerifiedClaimView};
use vstd::prelude::*;

verus! {

/// A claim as it was handed in is the same in both records.
pub open spec fn claim_kept(before: VerifiedClaimView, after: VerifiedClaimView) -> bool {
    &&& after.claim == before.claim
    &&& after.submitter == before.submitter
    &&& after.submitted_at == before.submitted_at
    &&& after.claim_id == before.claim_id
    &&& after.is_cross_chain == before.is_cross_chain
    &&& after.source_para_id == before.source_para_id
    &&& after.fee == before.fee
}

/// What may become of a product: it keeps its name, its owner and what was
/// registered about its origin, and once deactivated it stays so.
pub open spec fn product_follows(before: ProductView, after: ProductView) -> bool {
    &&& after.id == before.id
    &&& after.owner == before.owner
    &&& after.origin_country == before.origin_country
    &&& after.hs_code == before.hs_code
    &&& after.manufacture_date == before.manufacture_date
    &&& after.registered_at == before.registered_at
    &&& !before.active ==> !after.active
}

/// The configuration is the same in both states, and every product and
/// every claim of the first stands at the same place in the second, as it
/// was registered or handed in.
pub open spec fn records_kept(before: PalletView, after: PalletView) -> bool {
    &&& after.config == before.config
    &&& before.records.len() <= after.records.len()
    &&& forall|p: int|
        0 <= p < before.records.len() ==> {
            &&& product_follows(before.records[p].product, (#[trigger] after.records[p]).product)
            &&& before.records[p].claims.len() <= after.records[p].claims.len()
        }
    &&& forall|p: int, c: int|
        0 <= p < before.records.len() && 0 <= c < before.records[p].claims.len() ==> claim_kept(
            before.records[p].claims[c],
            #[trigger] after.records[p].claims[c],
        )
}

/// What may become of a state by an operation that revokes nothing: no
/// product and no claim is removed, moved or rewritten, and the only change
/// of a status is that a pending claim is settled.
pub open spec fn settles_only(before: PalletView, after: PalletView) -> bool {
    &&& records_kept(before, after)
    &&& forall|p: int, c: int|
        0 <= p < before.records.len() && 0 <= c < before.records[p].claims.len()
            ==> before.records[p].claims[c].status.may_settle_as(
            #[trigger] after.records[p].claims[c].status,
        )
}

/// What may become of a state by an operation: no product and no claim is
/// removed, moved or rewritten, and the only changes of a status are that
/// a pending claim is settled and that an approved claim is revoked.
pub open spec fn moves_forward(before: PalletView, after: PalletView) -> bool {
    &&& records_kept(before, after)
    &&& forall|p: int, c: int|
        0 <= p < before.records.len() && 0 <= c < before.records[p].claims.len()
            ==> before.records[p].claims[c].status.may_become(
            #[trigger] after.records[p].claims[c].status,
        )
}

/// Between the two records of a product, a pending claim about its country
/// of origin was approved.
pub open spec fn origin_approved(before: ProductRecordView, after: ProductRecordView) -> bool {
    exists|c: int|
        0 <= c < before.claims.len() && c < after.claims.len() && (
        #[trigger] before.claims[c]).claim.claim_type is OriginCountry
            && before.claims[c].status is Pending && after.claims[c].status is Approved
}

/// Between the two records of a product, an approved claim about its
/// country of origin was revoked.
pub open spec fn origin_revoked(before: ProductRecordView, after: ProductRecordView) -> bool {
    exists|c: int|
        0 <= c < before.claims.len() && c < after.claims.len() && (
        #[trigger] before.claims[c]).claim.claim_type is OriginCountry
            && before.claims[c].status is Approved && after.claims[c].status is Revoked
}

/// The origin flag of the later record is what the earlier record and the
/// claims settled in between make it: cleared where an origin claim was
/// revoked, set where one was approved, and as before otherwise.
pub open spec fn origin_flag_follows(before: ProductRecordView, after: ProductRecordView) -> bool {
    after.product.origin_verified == if origin_revoked(before, after) {
        false
    } else if origin_approved(before, after) {
        true
    } else {
        before.product.origin_verified
    }
}

/// The origin flag of every product of the earlier state is in the later
/// state what the claims settled in between make it.
pub open spec fn origin_flags_follow(before: PalletView, after: PalletView) -> bool {
    forall|p: int|
        0 <= p < before.records.len() && p < after.records.len() ==> origin_flag_follows(
            before.records[p],
            #[trigger] after.records[p],
        )
}

/// What the later state holds beyond the earlier one is new: a claim that
/// is pending, or a product without claims whose origin is not verified.
pub open spec fn additions_fresh(before: PalletView, after: PalletView) -> bool {
    &&& forall|p: int, c: int|
        0 <= p < before.records.len() && p < after.records.len() && before.records[p].claims.len()
            <= c < after.records[p].claims.len() ==> (
        #[trigger] after.records[p].claims[c]).status is Pending
    &&& forall|p: int|
        before.records.len() <= p < after.records.len() ==> {
            &&& !(#[trigger] after.records[p]).product.origin_verified
            &&& after.records[p].claims.len() == 0
        }
}

/// The origin flag of the record agrees with its claims: it is set only
/// where a claim about the country of origin stands approved, and it is
/// set where one stands approved and none was ever revoked.
pub open spec fn origin_flag_sound(record: ProductRecordView) -> bool {
    &&& record.product.origin_verified ==> exists|c: int|
        0 <= c < record.claims.len() && (#[trigger] record.claims[c]).claim.claim_type
            is OriginCountry && record.claims[c].status is Approved
    &&& (exists|c: int|
        0 <= c < record.claims.len() && (#[trigger] record.claims[c]).claim.claim_type
            is OriginCountry && record.claims[c].status is Approved) && (forall|c: int|
        0 <= c < record.claims.len() && (#[trigger] record.claims[c]).claim.claim_type
            is OriginCountry ==> !(record.claims[c].status is Revoked))
        ==> record.product.origin_verified
}

/// The two states have the same products, each with as many claims.
pub open spec fn same_shape(s: PalletView, t: PalletView) -> bool {
    &&& t.records.len() == s.records.len()
    &&& forall|p: int|
        0 <= p < s.records.len() ==> (#[trigger] t.records[p]).claims.len()
            == s.records[p].claims.len()
}

/// What a claim holds in escrow: its fee while it is pending, nothing once
/// it is settled.
pub open spec fn pending_fee(claim: VerifiedClaimView) -> int {
    if claim.status is Pending {
        claim.fee as int
    } else {
        0
    }
}

/// What the claims hold in escrow, all together.
pub open spec fn held(claims: Seq<VerifiedClaimView>) -> int
    decreases claims.len(),
{
    if claims.len() == 0 {
        0
    } else {
        held(claims.drop_last()) + pending_fee(claims.last())
    }
}

/// What the claims of all the products hold in escrow.
pub open spec fn escrow(records: Seq<ProductRecordView>) -> int
    decreases records.len(),
{
    if records.len() == 0 {
        0
    } else {
        escrow(records.drop_last()) + held(records.last().claims)
    }
}

/// What an effect releases from escrow.
pub open spec fn release_of(effect: EffectView) -> int {
    match effect {
        EffectView::Unreserve { amount, .. } => amount as int,
        _ => 0,
    }
}

/// What an effect moves from the submitter to another account.
pub open spec fn transfer_of(effect: EffectView) -> int {
    match effect {
        EffectView::Transfer { amount, .. } => amount as int,
        _ => 0,
    }
}

/// What the effects release from escrow, all together.
pub open spec fn released(effects: Seq<EffectView>) -> int
    decreases effects.len(),
{
    if effects.len() == 0 {
        0
    } else {
        released(effects.drop_last()) + release_of(effects.last())
    }
}

/// What the effects move from submitters to other accounts, all together.
pub open spec fn transferred(effects: Seq<EffectView>) -> int
    decreases effects.len(),
{
    if effects.len() == 0 {
        0
    } else {
        transferred(effects.drop_last()) + transfer_of(effects.last())
    }
}

/// What the host put in escrow for the call: the fee of the claim where the
/// call hands in a claim and is not refused, nothing otherwise.
pub open spec fn reserved_for<V: ClaimVerifier>(before: PalletView, call: Call<V>) -> int {
    match call {
        Call::Submit { product_id, claim, claim_id, para_id, .. } => {
            if before.apply(call).outcome is Ok {
                before.check_submission(product_id, claim, claim_id, para_id is Some)->Ok_0 as int
            } else {
                0
            }
        },
        _ => 0,
    }
}

/// Whether the call settles a claim by hand as approved, and is not
/// refused.
pub open spec fn approves_by_hand<V: ClaimVerifier>(before: PalletView, call: Call<V>) -> bool {
    call matches Call::VerifyClaim { approved, .. } && approved && before.apply(call).outcome is Ok
}

/// Whether pending claim `c` of product `p` has its waiting entry: a local
/// claim among the local entries, a cross-chain claim among the cross-chain
/// entries, under the claim's name and for the claim's product.
pub open spec fn waits(state: PalletView, p: int, c: int) -> bool {
    let claim = state.records[p].claims[c];
    if claim.is_cross_chain {
        match state.cross_chain_entry(claim.claim_id) {
            Some(entry) => entry.product_id == state.records[p].product.id,
            None => false,
        }
    } else {
        match state.pending_entry(claim.claim_id) {
            Some(entry) => entry.product_id == state.records[p].product.id,
            None => false,
        }
    }
}

/// Whether every pending claim has its waiting entry.
pub open spec fn all_pending_wait(state: PalletView) -> bool {
    forall|p: int, c: int|
        0 <= p < state.records.len() && 0 <= c < state.records[p].claims.len() && (
        #[trigger] state.records[p].claims[c]).status is Pending ==> waits(state, p, c)
}

/// Whether the call keeps clear of the waiting entries of other products.
/// A waiting entry is found by the name of its claim alone. So a claim that
/// is handed in under the name of a waiting entry takes that entry over,
/// and a verdict by hand removes the waiting entries of its claim's name
/// whatever product they are for.
pub open spec fn keeps_clear<V: ClaimVerifier>(before: PalletView, call: Call<V>) -> bool {
    match call {
        Call::Submit { claim_id, para_id, .. } => {
            if para_id is Some {
                before.cross_chain_entry(claim_id) is None
            } else {
                before.pending_entry(claim_id) is None
            }
        },
        Call::VerifyClaim { product_id, claim_id, .. } => {
            &&& before.pending_entry(claim_id) matches Some(entry) ==> entry.product_id
                == product_id
            &&& before.cross_chain_entry(claim_id) matches Some(entry) ==> entry.product_id
                == product_id
        },
        _ => true,
    }
}

/// The state after a history of calls, one after another.
pub open spec fn run<V: ClaimVerifier>(start: PalletView, calls: Seq<Call<V>>) -> PalletView
    decreases calls.len(),
{
    if calls.len() == 0 {
        start
    } else {
        run(start, calls.drop_last()).apply(calls.last()).state
    }
}

/// What the host put in escrow over a history of calls.
pub open spec fn reserved_over<V: ClaimVerifier>(start: PalletView, calls: Seq<Call<V>>) -> int
    decreases calls.len(),
{
    if calls.len() == 0 {
        0
    } else {
        reserved_over(start, calls.drop_last()) + reserved_for(
            run(start, calls.drop_last()),
            calls.last(),
        )
    }
}

/// What a history of calls released from escrow.
pub open spec fn released_over<V: ClaimVerifier>(start: PalletView, calls: Seq<Call<V>>) -> int
    decreases calls.len(),
{
    if calls.len() == 0 {
        0
    } else {
        released_over(start, calls.drop_last()) + released(
            effects_of(run(start, calls.drop_last()).apply(calls.last())),
        )
    }
}

/// What the history last did to the origin flag of product `p`: `true`
/// where the last call that settled the matter approved a claim about the
/// product's country of origin, `false` where it revoked one, and nothing
/// where no call did either.
pub open spec fn last_origin_verdict<V: ClaimVerifier>(
    start: PalletView,
    calls: Seq<Call<V>>,
    p: int,
) -> Option<bool>
    decreases calls.len(),
{
    if calls.len() == 0 {
        None
    } else {
        let before = run(start, calls.drop_last());
        let after = before.apply(calls.last()).state;
        if origin_revoked(before.records[p], after.records[p]) {
            Some(false)
        } else if origin_approved(before.records[p], after.records[p]) {
            Some(true)
        } else {
            last_origin_verdict(start, calls.drop_last(), p)
        }
    }
}

} // verus!
