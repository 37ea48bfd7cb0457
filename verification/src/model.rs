//! The pallet as a mathematical state machine: its state, what makes a state
//! well formed, and what every operation does to it.
use crate::bounded::{MAX_CLAIMS_PER_PRODUCT, MAX_METADATA_LENGTH};
use crate::history::origin_flag_sound;
use crate::keys::{distinct, position, AccountId, Balance, BlockNumber};
use crate::runtime_integration::{
    ClaimTypeView, ClaimVerifier, CrossChainMessageView, VerificationResultView, ZkClaimView,
};
use crate::types::{
    Config, EffectView, Error, EventView, ProductView, VerificationStatusView, VerifiedClaimView,
    Weight,
};
use vstd::prelude::*;

verus! {

/// A product with what the registry keeps about it.
pub ghost struct ProductRecordView {
    /// The product.
    pub product: ProductView,
    /// The owner's decentralized identifier, where one was given.
    pub owner_did: Option<Seq<u8>>,
    /// The product's claims, oldest first.
    pub claims: Seq<VerifiedClaimView>,
}

/// A local claim that waits for the scheduler.
pub ghost struct PendingView {
    /// The claim that waits.
    pub claim_id: Seq<u8>,
    /// The product the claim is about.
    pub product_id: Seq<u8>,
    /// The first tick at which the claim has timed out.
    pub deadline: BlockNumber,
}

/// A claim that waits for the answer of a counterparty chain.
pub ghost struct CrossChainView {
    /// The claim that waits.
    pub claim_id: Seq<u8>,
    /// The counterparty chain that was asked.
    pub para_id: u32,
    /// The product the claim is about.
    pub product_id: Seq<u8>,
    /// The first tick at which the claim has timed out.
    pub deadline: BlockNumber,
}

/// The whole state of a pallet.
pub ghost struct PalletView {
    /// The fixed parameters.
    pub config: Config,
    /// The products, in the order they were registered.
    pub records: Seq<ProductRecordView>,
    /// The local claims awaiting a verdict, in the order they were entered.
    pub pending: Seq<PendingView>,
    /// The cross-chain claims awaiting an answer, in the order they were
    /// entered.
    pub cross_chain: Seq<CrossChainView>,
    /// The fee schedule. A claim type that is not listed costs nothing.
    pub fees: Seq<(ClaimTypeView, Balance)>,
    /// The accounts that were named or unnamed as verifiers. An account that
    /// is not listed is no verifier.
    pub verifiers: Seq<(AccountId, bool)>,
}

/// What an operation did.
pub ghost struct Step {
    /// The state it left.
    pub state: PalletView,
    /// What it hands to the host, or why it was refused.
    pub outcome: Result<Seq<EffectView>, Error>,
}

/// What examining one waiting entry did.
pub ghost struct Examined {
    /// The state it left.
    pub state: PalletView,
    /// What it hands to the host.
    pub effects: Seq<EffectView>,
    /// Whether the entry is still waiting.
    pub kept: bool,
}

/// What a sweep over waiting entries did.
pub ghost struct Sweep {
    /// The state it left.
    pub state: PalletView,
    /// What it hands to the host.
    pub effects: Seq<EffectView>,
    /// How many entries were examined.
    pub examined: nat,
    /// What the sweep cost.
    pub weight: Weight,
}

impl Sweep {
    /// This sweep as the later part of a longer one, which began with the
    /// given effects, had examined that many entries and had cost that much
    /// before.
    pub open spec fn after(self, effects: Seq<EffectView>, examined: nat, weight: Weight) -> Sweep {
        Sweep {
            state: self.state,
            effects: effects + self.effects,
            examined: examined + self.examined,
            weight: weight.plus(self.weight),
        }
    }
}

/// What examining a local entry costs: 5 000 of computation time where the
/// claim timed out, 10 000 where the entry left the list after the verifier
/// was asked, and nothing where the claim goes on waiting.
pub open spec fn pending_cost(timed_out: bool, kept: bool) -> Weight {
    if timed_out {
        Weight { ref_time: 5_000, proof_size: 0 }
    } else if kept {
        Weight { ref_time: 0, proof_size: 0 }
    } else {
        Weight { ref_time: 10_000, proof_size: 0 }
    }
}

/// What examining a cross-chain entry costs: 5 000 of computation time
/// where the claim timed out, and nothing where it goes on waiting.
pub open spec fn cross_chain_cost(timed_out: bool) -> Weight {
    if timed_out {
        Weight { ref_time: 5_000, proof_size: 0 }
    } else {
        Weight { ref_time: 0, proof_size: 0 }
    }
}

/// "Verification impossible"
pub open spec fn reason_impossible() -> Seq<u8> {
    seq![
        86u8, 101u8, 114u8, 105u8, 102u8, 105u8, 99u8, 97u8, 116u8, 105u8, 111u8, 110u8, 32u8,
        105u8, 109u8, 112u8, 111u8, 115u8, 115u8, 105u8, 98u8, 108u8, 101u8,
    ]
}

/// "Cross-chain verification impossible"
pub open spec fn reason_cross_chain_impossible() -> Seq<u8> {
    seq![
        67u8, 114u8, 111u8, 115u8, 115u8, 45u8, 99u8, 104u8, 97u8, 105u8, 110u8, 32u8, 118u8,
        101u8, 114u8, 105u8, 102u8, 105u8, 99u8, 97u8, 116u8, 105u8, 111u8, 110u8, 32u8, 105u8,
        109u8, 112u8, 111u8, 115u8, 115u8, 105u8, 98u8, 108u8, 101u8,
    ]
}

/// The names of the products, in order.
pub open spec fn product_ids(records: Seq<ProductRecordView>) -> Seq<Seq<u8>> {
    Seq::new(records.len(), |i: int| records[i].product.id)
}

/// The names of the claims, in order.
pub open spec fn claim_ids(claims: Seq<VerifiedClaimView>) -> Seq<Seq<u8>> {
    Seq::new(claims.len(), |i: int| claims[i].claim_id)
}

/// The claim names of the entries, in order.
pub open spec fn pending_ids(pending: Seq<PendingView>) -> Seq<Seq<u8>> {
    Seq::new(pending.len(), |i: int| pending[i].claim_id)
}

/// The claim names of the entries, in order.
pub open spec fn cross_chain_ids(entries: Seq<CrossChainView>) -> Seq<Seq<u8>> {
    Seq::new(entries.len(), |i: int| entries[i].claim_id)
}

/// The first components, in order.
pub open spec fn firsts<K, V>(pairs: Seq<(K, V)>) -> Seq<K> {
    Seq::new(pairs.len(), |i: int| pairs[i].0)
}

/// The pairs with `key` bound to `value`: in place where `key` is bound
/// already, at the end where it is not.
pub open spec fn bind<K, V>(pairs: Seq<(K, V)>, key: K, value: V) -> Seq<(K, V)> {
    match position(firsts(pairs), key) {
        Some(i) => pairs.update(i, (key, value)),
        None => pairs.push((key, value)),
    }
}

/// The entries without the one for `claim_id`.
pub open spec fn without_pending(pending: Seq<PendingView>, claim_id: Seq<u8>) -> Seq<
    PendingView,
> {
    match position(pending_ids(pending), claim_id) {
        Some(i) => pending.remove(i),
        None => pending,
    }
}

/// The entries without the one for `claim_id`.
pub open spec fn without_cross_chain(entries: Seq<CrossChainView>, claim_id: Seq<u8>) -> Seq<
    CrossChainView,
> {
    match position(cross_chain_ids(entries), claim_id) {
        Some(i) => entries.remove(i),
        None => entries,
    }
}

/// The product with a new name, description and metadata, each where one is
/// given.
pub open spec fn revised(
    product: ProductView,
    name: Option<Seq<u8>>,
    description: Option<Seq<u8>>,
    metadata: Option<Seq<u8>>,
) -> ProductView {
    ProductView {
        name: match name {
            Some(bytes) => bytes,
            None => product.name,
        },
        description: match description {
            Some(bytes) => bytes,
            None => product.description,
        },
        metadata: match metadata {
            Some(bytes) => bytes,
            None => product.metadata,
        },
        ..product
    }
}

/// The fee that goes into escrow for a claim: the scheduled fee, twice that
/// for a cross-chain claim.
pub open spec fn escrow_fee(scheduled: Balance, cross_chain: bool) -> int {
    if cross_chain {
        2 * scheduled
    } else {
        scheduled as int
    }
}

/// The deadline of a claim entered at `now`: one timeout later, two for a
/// cross-chain claim.
pub open spec fn deadline_after(now: BlockNumber, timeout: BlockNumber, cross_chain: bool) -> int {
    if cross_chain {
        now + 2 * timeout
    } else {
        now + timeout
    }
}

/// What the host does when a claim is settled by hand.
pub open spec fn manual_effects(
    product_id: Seq<u8>,
    claim: VerifiedClaimView,
    approved: bool,
    reason: Option<Seq<u8>>,
    resolver: AccountId,
    admin: AccountId,
) -> Seq<EffectView> {
    let origin = if approved && claim.claim.claim_type is OriginCountry {
        seq![EffectView::Deposit(EventView::OriginVerified { product_id, verified: true })]
    } else {
        Seq::empty()
    };
    let release = seq![EffectView::Unreserve { who: claim.submitter, amount: claim.fee }];
    let shares = if approved {
        seq![
            EffectView::Transfer {
                from: claim.submitter,
                to: resolver,
                amount: (claim.fee / 2) as Balance,
            },
            EffectView::Transfer {
                from: claim.submitter,
                to: admin,
                amount: (claim.fee - claim.fee / 2) as Balance,
            },
        ]
    } else {
        Seq::empty()
    };
    let verified = seq![
        EffectView::Deposit(
            EventView::ClaimVerified {
                product_id,
                claim_id: claim.claim_id,
                claim_type: claim.claim.claim_type,
                success: approved,
                reason,
            },
        ),
    ];
    origin + release + shares + verified
}

/// What the host does when the scheduler settles a claim by a verdict.
pub open spec fn verdict_effects(
    product_id: Seq<u8>,
    claim: VerifiedClaimView,
    success: bool,
    reason: Option<Seq<u8>>,
) -> Seq<EffectView> {
    let origin = if success && claim.claim.claim_type is OriginCountry {
        seq![EffectView::Deposit(EventView::OriginVerified { product_id, verified: true })]
    } else {
        Seq::empty()
    };
    origin + seq![
        EffectView::Unreserve { who: claim.submitter, amount: claim.fee },
        EffectView::Deposit(
            EventView::ClaimVerified {
                product_id,
                claim_id: claim.claim_id,
                claim_type: claim.claim.claim_type,
                success,
                reason,
            },
        ),
    ]
}

/// What the host does when a claim's deadline has passed.
pub open spec fn timeout_effects(claim: VerifiedClaimView) -> Seq<EffectView> {
    seq![
        EffectView::Unreserve { who: claim.submitter, amount: claim.fee },
        EffectView::Deposit(EventView::VerificationTimedOut { claim_id: claim.claim_id }),
    ]
}

/// What the host does when a counterparty chain settles a claim.
pub open spec fn response_effects(
    product_id: Seq<u8>,
    claim: VerifiedClaimView,
    from_para_id: u32,
    success: bool,
) -> Seq<EffectView> {
    let origin = if success && claim.claim.claim_type is OriginCountry {
        seq![EffectView::Deposit(EventView::OriginVerified { product_id, verified: true })]
    } else {
        Seq::empty()
    };
    origin + seq![
        EffectView::Deposit(
            EventView::CrossChainVerificationReceived {
                from_para_id,
                claim_id: claim.claim_id,
                success,
            },
        ),
        EffectView::Unreserve { who: claim.submitter, amount: claim.fee },
    ]
}

impl PalletView {
    /// Where the product of that name stands among the records.
    pub open spec fn product_index(self, product_id: Seq<u8>) -> Option<int> {
        position(product_ids(self.records), product_id)
    }

    /// Where the claim of that name stands among the claims of product `p`.
    pub open spec fn claim_index(self, p: int, claim_id: Seq<u8>) -> Option<int> {
        position(claim_ids(self.records[p].claims), claim_id)
    }

    /// Where the claim of that name stands, product and claim, if the
    /// product exists and holds it.
    pub open spec fn locate(self, product_id: Seq<u8>, claim_id: Seq<u8>) -> Option<(int, int)> {
        match self.product_index(product_id) {
            Some(p) => match self.claim_index(p, claim_id) {
                Some(c) => Some((p, c)),
                None => None,
            },
            None => None,
        }
    }

    /// Where the claim of that name stands among the claims of the product
    /// of that name, if the product exists and holds it.
    pub open spec fn claim_position(self, product_id: Seq<u8>, claim_id: Seq<u8>) -> Option<int> {
        match self.locate(product_id, claim_id) {
            Some((p, c)) => Some(c),
            None => None,
        }
    }

    /// The product of that name, if there is one.
    pub open spec fn product(self, product_id: Seq<u8>) -> Option<ProductView> {
        match self.product_index(product_id) {
            Some(p) => Some(self.records[p].product),
            None => None,
        }
    }

    /// The claims of the product of that name, oldest first; none where
    /// there is no such product.
    pub open spec fn claims_of(self, product_id: Seq<u8>) -> Seq<VerifiedClaimView> {
        match self.product_index(product_id) {
            Some(p) => self.records[p].claims,
            None => Seq::empty(),
        }
    }

    /// The decentralized identifier of the owner of the product of that
    /// name, if one is kept.
    pub open spec fn owner_did_of(self, product_id: Seq<u8>) -> Option<Seq<u8>> {
        match self.product_index(product_id) {
            Some(p) => self.records[p].owner_did,
            None => None,
        }
    }

    /// The local entry of the claim of that name, if it waits.
    pub open spec fn pending_entry(self, claim_id: Seq<u8>) -> Option<PendingView> {
        match position(pending_ids(self.pending), claim_id) {
            Some(e) => Some(self.pending[e]),
            None => None,
        }
    }

    /// The cross-chain entry of the claim of that name, if it waits.
    pub open spec fn cross_chain_entry(self, claim_id: Seq<u8>) -> Option<CrossChainView> {
        match position(cross_chain_ids(self.cross_chain), claim_id) {
            Some(e) => Some(self.cross_chain[e]),
            None => None,
        }
    }

    /// The scheduled fee for a claim type.
    pub open spec fn fee(self, claim_type: ClaimTypeView) -> Balance {
        match position(firsts(self.fees), claim_type) {
            Some(i) => self.fees[i].1,
            None => 0,
        }
    }

    /// Whether the account is named as a verifier.
    pub open spec fn is_authorized(self, account: AccountId) -> bool {
        match position(firsts(self.verifiers), account) {
            Some(i) => self.verifiers[i].1,
            None => false,
        }
    }

    /// Whether the account may settle claims by hand: a named verifier may,
    /// and the administrator.
    pub open spec fn can_resolve(self, caller: AccountId) -> bool {
        self.is_authorized(caller) || caller == self.config.admin_account
    }

    /// Whether the account is the administrator, who alone may revoke
    /// claims, set fees and name verifiers.
    pub open spec fn is_admin(self, caller: AccountId) -> bool {
        caller == self.config.admin_account
    }

    /// Whether the account may change the product: its owner may, and the
    /// administrator.
    pub open spec fn can_manage(self, caller: AccountId, p: int) -> bool {
        self.records[p].product.owner == caller || caller == self.config.admin_account
    }

    /// The state with record `p` replaced.
    pub open spec fn with_record(self, p: int, record: ProductRecordView) -> PalletView {
        PalletView { records: self.records.update(p, record), ..self }
    }

    /// The state with the product of record `p` replaced.
    pub open spec fn with_product(self, p: int, product: ProductView) -> PalletView {
        self.with_record(p, ProductRecordView { product, ..self.records[p] })
    }

    /// The state with claim `c` of product `p` replaced.
    pub open spec fn with_claim(self, p: int, c: int, claim: VerifiedClaimView) -> PalletView {
        self.with_record(
            p,
            ProductRecordView {
                claims: self.records[p].claims.update(c, claim),
                ..self.records[p]
            },
        )
    }

    /// The state with the origin flag of product `p` set to `verified`.
    pub open spec fn with_origin_flag(self, p: int, verified: bool) -> PalletView {
        self.with_product(
            p,
            ProductView { origin_verified: verified, ..self.records[p].product },
        )
    }

    /// The state after claim `c` of product `p` got `status`: the claim
    /// carries the status, the verifier and the time of the verdict, and an
    /// approved claim about the country of origin sets the product's origin
    /// flag.
    pub open spec fn settle(
        self,
        p: int,
        c: int,
        status: VerificationStatusView,
        verifier: Option<AccountId>,
        verified_at: Option<BlockNumber>,
    ) -> PalletView {
        let claim = self.records[p].claims[c];
        let settled = self.with_claim(
            p,
            c,
            VerifiedClaimView { status, verifier, verified_at, ..claim },
        );
        if status is Approved && claim.claim.claim_type is OriginCountry {
            settled.with_origin_flag(p, true)
        } else {
            settled
        }
    }

    /// Whether the claim of that name exists and waits for a verdict, as a
    /// local or as a cross-chain claim.
    pub open spec fn awaits(self, product_id: Seq<u8>, claim_id: Seq<u8>, cross_chain: bool) -> bool {
        match self.locate(product_id, claim_id) {
            Some((p, c)) => {
                &&& self.records[p].claims[c].status is Pending
                &&& self.records[p].claims[c].is_cross_chain == cross_chain
            },
            None => false,
        }
    }

    /// Whether the record is in order: no two claims share a name, there are
    /// no more claims than a product may hold, the metadata is no longer
    /// than it may be, and a cross-chain claim names its counterparty.
    pub open spec fn record_in_order(self, p: int) -> bool {
        let record = self.records[p];
        &&& distinct(claim_ids(record.claims))
        &&& record.claims.len() <= MAX_CLAIMS_PER_PRODUCT
        &&& record.product.metadata.len() <= MAX_METADATA_LENGTH
        &&& forall|c: int|
            0 <= c < record.claims.len() ==> (#[trigger] record.claims[c]).is_cross_chain
                == record.claims[c].source_para_id.is_some()
    }

    /// Whether the state is consistent: the records are in order, no two
    /// products and no two waiting entries share a name, and every waiting
    /// entry leads to a claim that waits, a local entry to a local claim
    /// and a cross-chain entry to a cross-chain claim. Every operation
    /// takes a consistent state to a consistent state.
    pub open spec fn consistent(self) -> bool {
        &&& distinct(product_ids(self.records))
        &&& forall|p: int| 0 <= p < self.records.len() ==> #[trigger] self.record_in_order(p)
        &&& distinct(pending_ids(self.pending))
        &&& distinct(cross_chain_ids(self.cross_chain))
        &&& forall|e: int|
            0 <= e < self.pending.len() ==> self.awaits(
                (#[trigger] self.pending[e]).product_id,
                self.pending[e].claim_id,
                false,
            )
        &&& forall|e: int|
            0 <= e < self.cross_chain.len() ==> self.awaits(
                (#[trigger] self.cross_chain[e]).product_id,
                self.cross_chain[e].claim_id,
                true,
            )
        &&& distinct(firsts(self.fees))
        &&& distinct(firsts(self.verifiers))
    }

    /// Whether the state is well formed: it is consistent, and the origin
    /// flag of every product agrees with the product's claims. A pallet
    /// starts in a well-formed state, and every operation takes a
    /// well-formed state to a well-formed state.
    pub open spec fn wf(self) -> bool {
        &&& self.consistent()
        &&& forall|p: int|
            0 <= p < self.records.len() ==> origin_flag_sound(#[trigger] self.records[p])
    }

    /// The state a pallet starts in: no products, the verifiers and fees
    /// that genesis names, the later of two entries for the same key
    /// winning, and the configured fee for origin-country claims where
    /// genesis names none.
    pub open spec fn genesis(
        config: Config,
        verifiers: Seq<(AccountId, bool)>,
        fees: Seq<(ClaimTypeView, Balance)>,
    ) -> PalletView {
        let listed = bind_all(Seq::empty(), fees);
        PalletView {
            config,
            records: Seq::empty(),
            pending: Seq::empty(),
            cross_chain: Seq::empty(),
            fees: if position(firsts(listed), ClaimTypeView::OriginCountry) is Some {
                listed
            } else {
                listed.push((ClaimTypeView::OriginCountry, config.verification_fee))
            },
            verifiers: bind_all(Seq::empty(), verifiers),
        }
    }

    /// Registers a product.
    pub open spec fn register_product(
        self,
        who: AccountId,
        product_id: Seq<u8>,
        name: Seq<u8>,
        description: Seq<u8>,
        origin_country: Seq<u8>,
        hs_code: Seq<u8>,
        manufacture_date: u64,
        metadata: Seq<u8>,
        owner_did: Option<Seq<u8>>,
        now: BlockNumber,
    ) -> Step {
        if product_id.len() == 0 {
            self.refuse(Error::InvalidClaimData)
        } else if origin_country.len() != 2 {
            self.refuse(Error::InvalidCountryCode)
        } else if hs_code.len() == 0 {
            self.refuse(Error::InvalidHsCode)
        } else if metadata.len() > MAX_METADATA_LENGTH {
            self.refuse(Error::MetadataTooLong)
        } else if self.product_index(product_id) is Some {
            self.refuse(Error::ProductAlreadyExists)
        } else {
            let record = ProductRecordView {
                product: ProductView {
                    id: product_id,
                    owner: who,
                    name,
                    description,
                    origin_country,
                    hs_code,
                    manufacture_date,
                    origin_verified: false,
                    metadata,
                    registered_at: now,
                    active: true,
                },
                owner_did: match owner_did {
                    Some(did) => if did.len() > 0 {
                        Some(did)
                    } else {
                        None
                    },
                    None => None,
                },
                claims: Seq::empty(),
            };
            Step {
                state: PalletView { records: self.records.push(record), ..self },
                outcome: Ok(
                    seq![EffectView::Deposit(EventView::ProductRegistered { product_id, owner: who })],
                ),
            }
        }
    }

    /// The state as it is, with the operation refused.
    pub open spec fn refuse(self, error: Error) -> Step {
        Step { state: self, outcome: Err(error) }
    }

    /// Whether a claim may be handed in, and the fee that has to go into
    /// escrow for it.
    ///
    /// The claim is refused, in this order: where the product does not exist
    /// or is not active; where the claim's name or proof is empty; where the
    /// product holds a claim of that name; where the product can hold no
    /// more claims; where the fee is more than any balance holds.
    pub open spec fn check_submission(
        self,
        product_id: Seq<u8>,
        claim: ZkClaimView,
        claim_id: Seq<u8>,
        cross_chain: bool,
    ) -> Result<Balance, Error> {
        match self.product_index(product_id) {
            None => Err(Error::ProductNotFound),
            Some(p) => {
                if !self.records[p].product.active {
                    Err(Error::ProductNotActive)
                } else if claim_id.len() == 0 || claim.proof.len() == 0 {
                    Err(Error::InvalidClaimData)
                } else if self.claim_index(p, claim_id) is Some {
                    Err(Error::ClaimIdAlreadyExists)
                } else if self.records[p].claims.len() >= MAX_CLAIMS_PER_PRODUCT {
                    Err(Error::TooManyClaims)
                } else if escrow_fee(self.fee(claim.claim_type), cross_chain) > Balance::MAX {
                    Err(Error::VerificationFeesNotPaid)
                } else {
                    Ok(escrow_fee(self.fee(claim.claim_type), cross_chain) as Balance)
                }
            },
        }
    }

    /// Hands in a claim: a local one where `para_id` is `None`, a
    /// cross-chain one for that counterparty otherwise. `sent` says whether
    /// the request reached the counterparty, `reserved` whether the escrow
    /// service took the fee.
    pub open spec fn submit(
        self,
        who: AccountId,
        product_id: Seq<u8>,
        claim: ZkClaimView,
        claim_id: Seq<u8>,
        para_id: Option<u32>,
        now: BlockNumber,
        sent: bool,
        reserved: bool,
    ) -> Step {
        match self.check_submission(product_id, claim, claim_id, para_id is Some) {
            Err(error) => self.refuse(error),
            Ok(fee) => {
                if para_id is Some && !sent {
                    self.refuse(Error::CrossChainError)
                } else if !reserved {
                    self.refuse(Error::VerificationFeesNotPaid)
                } else {
                    let p = self.product_index(product_id)->0;
                    let record = self.records[p];
                    let entered = VerifiedClaimView {
                        claim,
                        submitter: who,
                        submitted_at: now,
                        status: VerificationStatusView::Pending,
                        verifier: None,
                        verified_at: None,
                        claim_id,
                        is_cross_chain: para_id is Some,
                        source_para_id: para_id,
                        fee,
                    };
                    let deadline = deadline_after(
                        now,
                        self.config.verification_timeout,
                        para_id is Some,
                    ) as BlockNumber;
                    let with_claim = self.with_record(
                        p,
                        ProductRecordView { claims: record.claims.push(entered), ..record },
                    );
                    match para_id {
                        None => Step {
                            state: PalletView {
                                pending: without_pending(self.pending, claim_id).push(
                                    PendingView { claim_id, product_id, deadline },
                                ),
                                ..with_claim
                            },
                            outcome: Ok(
                                seq![
                                    EffectView::Deposit(
                                        EventView::ClaimSubmitted {
                                            product_id,
                                            claim_id,
                                            claim_type: claim.claim_type,
                                            submitter: who,
                                        },
                                    ),
                                ],
                            ),
                        },
                        Some(para) => Step {
                            state: PalletView {
                                cross_chain: without_cross_chain(self.cross_chain, claim_id).push(
                                    CrossChainView { claim_id, para_id: para, product_id, deadline },
                                ),
                                ..with_claim
                            },
                            outcome: Ok(
                                seq![
                                    EffectView::Deposit(
                                        EventView::CrossChainVerificationSent {
                                            para_id: para,
                                            claim_id,
                                        },
                                    ),
                                ],
                            ),
                        },
                    }
                }
            },
        }
    }

    /// Settles a pending claim by hand.
    ///
    /// Refused, in this order: where the caller may not settle claims; where
    /// the product does not exist; where it holds no claim of that name;
    /// where the claim is not pending.
    pub open spec fn verify_claim(
        self,
        who: AccountId,
        product_id: Seq<u8>,
        claim_id: Seq<u8>,
        approved: bool,
        reason: Option<Seq<u8>>,
        now: BlockNumber,
    ) -> Step {
        if !self.can_resolve(who) {
            self.refuse(Error::NotAuthorizedVerifier)
        } else {
            match self.product_index(product_id) {
                None => self.refuse(Error::ProductNotFound),
                Some(p) => match self.claim_index(p, claim_id) {
                    None => self.refuse(Error::ClaimNotFound),
                    Some(c) => {
                        let claim = self.records[p].claims[c];
                        if !(claim.status is Pending) {
                            self.refuse(Error::InvalidClaimState)
                        } else {
                            let status = if approved {
                                VerificationStatusView::Approved
                            } else {
                                VerificationStatusView::Rejected(
                                    match reason {
                                        Some(bytes) => bytes,
                                        None => Seq::empty(),
                                    },
                                )
                            };
                            let settled = self.settle(p, c, status, Some(who), Some(now));
                            Step {
                                state: PalletView {
                                    pending: without_pending(self.pending, claim_id),
                                    cross_chain: without_cross_chain(self.cross_chain, claim_id),
                                    ..settled
                                },
                                outcome: Ok(
                                    manual_effects(
                                        product_id,
                                        claim,
                                        approved,
                                        reason,
                                        who,
                                        self.config.admin_account,
                                    ),
                                ),
                            }
                        }
                    },
                },
            }
        }
    }

    /// Revokes an approved claim.
    ///
    /// Refused, in this order: where the caller is not the administrator;
    /// where the product does not exist; where it holds no claim of that
    /// name; where the claim does not stand approved.
    pub open spec fn revoke_claim(
        self,
        who: AccountId,
        product_id: Seq<u8>,
        claim_id: Seq<u8>,
        reason: Seq<u8>,
    ) -> Step {
        if !self.is_admin(who) {
            self.refuse(Error::RequiresAdminPrivileges)
        } else {
            match self.product_index(product_id) {
                None => self.refuse(Error::ProductNotFound),
                Some(p) => match self.claim_index(p, claim_id) {
                    None => self.refuse(Error::ClaimNotFound),
                    Some(c) => {
                        let claim = self.records[p].claims[c];
                        if !(claim.status is Approved) {
                            self.refuse(Error::InvalidClaimState)
                        } else {
                            let revoked = self.with_claim(
                                p,
                                c,
                                VerifiedClaimView {
                                    status: VerificationStatusView::Revoked(reason),
                                    ..claim
                                },
                            );
                            let event = seq![
                                EffectView::Deposit(
                                    EventView::ClaimRevoked { product_id, claim_id, reason },
                                ),
                            ];
                            if claim.claim.claim_type is OriginCountry {
                                Step {
                                    state: revoked.with_origin_flag(p, false),
                                    outcome: Ok(
                                        seq![
                                            EffectView::Deposit(
                                                EventView::OriginVerified {
                                                    product_id,
                                                    verified: false,
                                                },
                                            ),
                                        ] + event,
                                    ),
                                }
                            } else {
                                Step { state: revoked, outcome: Ok(event) }
                            }
                        }
                    },
                },
            }
        }
    }

    /// Sets the fee for a claim type. Only the administrator may.
    pub open spec fn update_verification_fee(
        self,
        who: AccountId,
        claim_type: ClaimTypeView,
        new_fee: Balance,
    ) -> Step {
        if !self.is_admin(who) {
            self.refuse(Error::RequiresAdminPrivileges)
        } else {
            Step {
                state: PalletView { fees: bind(self.fees, claim_type, new_fee), ..self },
                outcome: Ok(
                    seq![
                        EffectView::Deposit(EventView::VerificationFeeUpdated { claim_type, new_fee }),
                    ],
                ),
            }
        }
    }

    /// Names or unnames a verifier. Only the administrator may.
    pub open spec fn set_verifier_authorization(
        self,
        who: AccountId,
        verifier: AccountId,
        authorized: bool,
    ) -> Step {
        if !self.is_admin(who) {
            self.refuse(Error::RequiresAdminPrivileges)
        } else {
            Step {
                state: PalletView { verifiers: bind(self.verifiers, verifier, authorized), ..self },
                outcome: Ok(
                    seq![
                        EffectView::Deposit(
                            EventView::VerifierAuthorizationChanged { account: verifier, authorized },
                        ),
                    ],
                ),
            }
        }
    }

    /// Changes the name, the description or the metadata of a product, each
    /// where a new value is given.
    ///
    /// Refused, in this order: where the product does not exist; where the
    /// caller is neither its owner nor the administrator; where the new
    /// metadata is too long.
    pub open spec fn update_product_info(
        self,
        who: AccountId,
        product_id: Seq<u8>,
        name: Option<Seq<u8>>,
        description: Option<Seq<u8>>,
        metadata: Option<Seq<u8>>,
    ) -> Step {
        match self.product_index(product_id) {
            None => self.refuse(Error::ProductNotFound),
            Some(p) => {
                let product = self.records[p].product;
                if !self.can_manage(who, p) {
                    self.refuse(Error::NotProductOwner)
                } else if metadata is Some && metadata->0.len() > MAX_METADATA_LENGTH {
                    self.refuse(Error::MetadataTooLong)
                } else {
                    Step {
                        state: self.with_product(p, revised(product, name, description, metadata)),
                        outcome: Ok(
                            seq![EffectView::Deposit(EventView::ProductUpdated { product_id })],
                        ),
                    }
                }
            },
        }
    }

    /// Deactivates a product: it takes no more claims.
    ///
    /// Refused where the product does not exist, and then where the caller
    /// is neither its owner nor the administrator.
    pub open spec fn deactivate_product(self, who: AccountId, product_id: Seq<u8>) -> Step {
        match self.product_index(product_id) {
            None => self.refuse(Error::ProductNotFound),
            Some(p) => {
                if !self.can_manage(who, p) {
                    self.refuse(Error::NotProductOwner)
                } else {
                    Step {
                        state: self.with_product(
                            p,
                            ProductView { active: false, ..self.records[p].product },
                        ),
                        outcome: Ok(
                            seq![EffectView::Deposit(EventView::ProductUpdated { product_id })],
                        ),
                    }
                }
            },
        }
    }

    /// Whether the message is an answer of "pending" for a claim that waits
    /// for an answer, so that taking it in enters the claim again.
    pub open spec fn reenters(self, message: CrossChainMessageView) -> bool {
        message matches CrossChainMessageView::VerificationResponse { claim_id, result }
            && result is Pending && match self.cross_chain_entry(claim_id) {
            Some(entry) => match self.locate(entry.product_id, claim_id) {
                Some((p, c)) => self.records[p].claims[c].status is Pending,
                None => false,
            },
            None => false,
        }
    }

    /// Takes in a message from counterparty chain `para_id`.
    ///
    /// An answer to a request looks up the waiting entry of its claim and
    /// removes it; without such an entry nothing happens. A verdict settles
    /// the claim and releases its fee; an answer of "pending" enters the
    /// claim again, with a deadline one timeout from now. Every other
    /// message is taken in without effect.
    pub open spec fn handle_cross_chain_message(
        self,
        para_id: u32,
        message: CrossChainMessageView,
        now: BlockNumber,
    ) -> Step {
        match message {
            CrossChainMessageView::VerificationResponse { claim_id, result } => {
                match position(cross_chain_ids(self.cross_chain), claim_id) {
                    None => Step { state: self, outcome: Ok(Seq::empty()) },
                    Some(e) => {
                        let entry = self.cross_chain[e];
                        let taken = PalletView {
                            cross_chain: self.cross_chain.remove(e),
                            ..self
                        };
                        match self.locate(entry.product_id, claim_id) {
                            None => Step { state: taken, outcome: Ok(Seq::empty()) },
                            Some((p, c)) => {
                                let claim = self.records[p].claims[c];
                                if !(claim.status is Pending) {
                                    Step { state: taken, outcome: Ok(Seq::empty()) }
                                } else {
                                    match result {
                                        VerificationResultView::Success => Step {
                                            state: taken.settle(
                                                p,
                                                c,
                                                VerificationStatusView::Approved,
                                                claim.verifier,
                                                Some(now),
                                            ),
                                            outcome: Ok(
                                                response_effects(
                                                    entry.product_id,
                                                    claim,
                                                    para_id,
                                                    true,
                                                ),
                                            ),
                                        },
                                        VerificationResultView::Failure(reason) => Step {
                                            state: taken.settle(
                                                p,
                                                c,
                                                VerificationStatusView::Rejected(reason),
                                                claim.verifier,
                                                Some(now),
                                            ),
                                            outcome: Ok(
                                                response_effects(
                                                    entry.product_id,
                                                    claim,
                                                    para_id,
                                                    false,
                                                ),
                                            ),
                                        },
                                        VerificationResultView::Impossible => Step {
                                            state: taken.settle(
                                                p,
                                                c,
                                                VerificationStatusView::Failed(
                                                    reason_cross_chain_impossible(),
                                                ),
                                                claim.verifier,
                                                Some(now),
                                            ),
                                            outcome: Ok(
                                                response_effects(
                                                    entry.product_id,
                                                    claim,
                                                    para_id,
                                                    false,
                                                ),
                                            ),
                                        },
                                        VerificationResultView::Pending => Step {
                                            state: PalletView {
                                                cross_chain: taken.cross_chain.push(
                                                    CrossChainView {
                                                        claim_id,
                                                        para_id,
                                                        product_id: entry.product_id,
                                                        deadline: deadline_after(
                                                            now,
                                                            self.config.verification_timeout,
                                                            false,
                                                        ) as BlockNumber,
                                                    },
                                                ),
                                                ..taken
                                            },
                                            outcome: Ok(Seq::empty()),
                                        },
                                    }
                                }
                            },
                        }
                    },
                }
            },
            _ => Step { state: self, outcome: Ok(Seq::empty()) },
        }
    }

    /// The state after the claim of that name timed out: a pending claim is
    /// marked and its fee released; any other is left alone.
    pub open spec fn time_out(self, product_id: Seq<u8>, claim_id: Seq<u8>) -> Examined {
        match self.locate(product_id, claim_id) {
            Some((p, c)) => {
                let claim = self.records[p].claims[c];
                if claim.status is Pending {
                    Examined {
                        state: self.settle(
                            p,
                            c,
                            VerificationStatusView::TimedOut,
                            claim.verifier,
                            claim.verified_at,
                        ),
                        effects: timeout_effects(claim),
                        kept: false,
                    }
                } else {
                    Examined { state: self, effects: Seq::empty(), kept: false }
                }
            },
            None => Examined { state: self, effects: Seq::empty(), kept: false },
        }
    }

    /// The state after the verifier was asked about the claim of that name:
    /// a verdict settles a pending claim and releases its fee; without a
    /// verdict the claim goes on waiting.
    pub open spec fn judge<V: ClaimVerifier>(
        self,
        verifier: V,
        product_id: Seq<u8>,
        claim_id: Seq<u8>,
        now: BlockNumber,
    ) -> Examined {
        match self.locate(product_id, claim_id) {
            Some((p, c)) => {
                let claim = self.records[p].claims[c];
                if claim.status is Pending {
                    match verifier.verdict(claim.claim) {
                        VerificationResultView::Success => Examined {
                            state: self.settle(
                                p,
                                c,
                                VerificationStatusView::Approved,
                                None,
                                Some(now),
                            ),
                            effects: verdict_effects(product_id, claim, true, None),
                            kept: false,
                        },
                        VerificationResultView::Failure(reason) => Examined {
                            state: self.settle(
                                p,
                                c,
                                VerificationStatusView::Rejected(reason),
                                None,
                                Some(now),
                            ),
                            effects: verdict_effects(product_id, claim, false, Some(reason)),
                            kept: false,
                        },
                        VerificationResultView::Pending => Examined {
                            state: self,
                            effects: Seq::empty(),
                            kept: true,
                        },
                        VerificationResultView::Impossible => Examined {
                            state: self.settle(
                                p,
                                c,
                                VerificationStatusView::Failed(reason_impossible()),
                                None,
                                Some(now),
                            ),
                            effects: verdict_effects(
                                product_id,
                                claim,
                                false,
                                Some(reason_impossible()),
                            ),
                            kept: false,
                        },
                    }
                } else {
                    Examined { state: self, effects: Seq::empty(), kept: false }
                }
            },
            None => Examined { state: self, effects: Seq::empty(), kept: false },
        }
    }

    /// The state after the scheduler examined local entry `at`: past its
    /// deadline the claim times out, before it the verifier is asked. The
    /// entry leaves the list unless the verifier gave no verdict.
    pub open spec fn examine_pending<V: ClaimVerifier>(
        self,
        verifier: V,
        now: BlockNumber,
        at: int,
    ) -> Examined {
        let entry = self.pending[at];
        let examined = if now >= entry.deadline {
            self.time_out(entry.product_id, entry.claim_id)
        } else {
            self.judge(verifier, entry.product_id, entry.claim_id, now)
        };
        if examined.kept {
            examined
        } else {
            Examined {
                state: PalletView { pending: self.pending.remove(at), ..examined.state },
                ..examined
            }
        }
    }

    /// The state after the scheduler examined cross-chain entry `at`: past
    /// its deadline the claim times out and the entry leaves the list;
    /// before it nothing happens.
    pub open spec fn examine_cross_chain(self, now: BlockNumber, at: int) -> Examined {
        let entry = self.cross_chain[at];
        if now >= entry.deadline {
            let examined = self.time_out(entry.product_id, entry.claim_id);
            Examined {
                state: PalletView { cross_chain: self.cross_chain.remove(at), ..examined.state },
                ..examined
            }
        } else {
            Examined { state: self, effects: Seq::empty(), kept: true }
        }
    }

    /// The local entries from `at` on, examined in order until `budget`
    /// entries have been examined or none is left.
    pub open spec fn sweep_pending<V: ClaimVerifier>(
        self,
        verifier: V,
        now: BlockNumber,
        at: int,
        budget: nat,
    ) -> Sweep
        decreases budget,
    {
        if budget == 0 || at < 0 || at >= self.pending.len() {
            Sweep {
                state: self,
                effects: Seq::empty(),
                examined: 0,
                weight: Weight { ref_time: 0, proof_size: 0 },
            }
        } else {
            let first = self.examine_pending(verifier, now, at);
            let rest = first.state.sweep_pending(
                verifier,
                now,
                if first.kept {
                    at + 1
                } else {
                    at
                },
                (budget - 1) as nat,
            );
            Sweep {
                state: rest.state,
                effects: first.effects + rest.effects,
                examined: rest.examined + 1,
                weight: pending_cost(now >= self.pending[at].deadline, first.kept).plus(
                    rest.weight,
                ),
            }
        }
    }

    /// The cross-chain entries from `at` on, examined in order until
    /// `budget` entries have been examined or none is left.
    pub open spec fn sweep_cross_chain(self, now: BlockNumber, at: int, budget: nat) -> Sweep
        decreases budget,
    {
        if budget == 0 || at < 0 || at >= self.cross_chain.len() {
            Sweep {
                state: self,
                effects: Seq::empty(),
                examined: 0,
                weight: Weight { ref_time: 0, proof_size: 0 },
            }
        } else {
            let first = self.examine_cross_chain(now, at);
            let rest = first.state.sweep_cross_chain(
                now,
                if first.kept {
                    at + 1
                } else {
                    at
                },
                (budget - 1) as nat,
            );
            Sweep {
                state: rest.state,
                effects: first.effects + rest.effects,
                examined: rest.examined + 1,
                weight: cross_chain_cost(now >= self.cross_chain[at].deadline).plus(rest.weight),
            }
        }
    }

    /// One scheduler tick: the local entries first, then the cross-chain
    /// entries with what is left of the tick's budget.
    pub open spec fn tick<V: ClaimVerifier>(self, verifier: V, now: BlockNumber) -> Sweep {
        let local = self.sweep_pending(verifier, now, 0, self.config.verification_limit as nat);
        let remote = local.state.sweep_cross_chain(
            now,
            0,
            (self.config.verification_limit - local.examined) as nat,
        );
        Sweep {
            state: remote.state,
            effects: local.effects + remote.effects,
            examined: local.examined + remote.examined,
            weight: local.weight.plus(remote.weight),
        }
    }
}

/// The pairs with every binding of `more` added in order, a later binding of
/// a key replacing an earlier one.
pub open spec fn bind_all<K, V>(pairs: Seq<(K, V)>, more: Seq<(K, V)>) -> Seq<(K, V)>
    decreases more.len(),
{
    if more.len() == 0 {
        pairs
    } else {
        bind(bind_all(pairs, more.drop_last()), more.last().0, more.last().1)
    }
}

/// One use of an operation of the pallet, with its arguments.
#[allow(inconsistent_fields)]
pub ghost enum Call<V> {
    RegisterProduct {
        who: AccountId,
        product_id: Seq<u8>,
        name: Seq<u8>,
        description: Seq<u8>,
        origin_country: Seq<u8>,
        hs_code: Seq<u8>,
        manufacture_date: u64,
        metadata: Seq<u8>,
        owner_did: Option<Seq<u8>>,
        now: BlockNumber,
    },
    Submit {
        who: AccountId,
        product_id: Seq<u8>,
        claim: ZkClaimView,
        claim_id: Seq<u8>,
        para_id: Option<u32>,
        now: BlockNumber,
        sent: bool,
        reserved: bool,
    },
    VerifyClaim {
        who: AccountId,
        product_id: Seq<u8>,
        claim_id: Seq<u8>,
        approved: bool,
        reason: Option<Seq<u8>>,
        now: BlockNumber,
    },
    RevokeClaim { who: AccountId, product_id: Seq<u8>, claim_id: Seq<u8>, reason: Seq<u8> },
    UpdateVerificationFee { who: AccountId, claim_type: ClaimTypeView, new_fee: Balance },
    SetVerifierAuthorization { who: AccountId, verifier: AccountId, authorized: bool },
    UpdateProductInfo {
        who: AccountId,
        product_id: Seq<u8>,
        name: Option<Seq<u8>>,
        description: Option<Seq<u8>>,
        metadata: Option<Seq<u8>>,
    },
    DeactivateProduct { who: AccountId, product_id: Seq<u8> },
    HandleCrossChainMessage { para_id: u32, message: CrossChainMessageView, now: BlockNumber },
    Tick { verifier: V, now: BlockNumber },
}

impl PalletView {
    /// What a call does to the state, and what it answers.
    pub open spec fn apply<V: ClaimVerifier>(self, call: Call<V>) -> Step {
        match call {
            Call::RegisterProduct {
                who,
                product_id,
                name,
                description,
                origin_country,
                hs_code,
                manufacture_date,
                metadata,
                owner_did,
                now,
            } => self.register_product(
                who,
                product_id,
                name,
                description,
                origin_country,
                hs_code,
                manufacture_date,
                metadata,
                owner_did,
                now,
            ),
            Call::Submit { who, product_id, claim, claim_id, para_id, now, sent, reserved } => {
                self.submit(who, product_id, claim, claim_id, para_id, now, sent, reserved)
            },
            Call::VerifyClaim { who, product_id, claim_id, approved, reason, now } => {
                self.verify_claim(who, product_id, claim_id, approved, reason, now)
            },
            Call::RevokeClaim { who, product_id, claim_id, reason } => self.revoke_claim(
                who,
                product_id,
                claim_id,
                reason,
            ),
            Call::UpdateVerificationFee { who, claim_type, new_fee } => {
                self.update_verification_fee(who, claim_type, new_fee)
            },
            Call::SetVerifierAuthorization { who, verifier, authorized } => {
                self.set_verifier_authorization(who, verifier, authorized)
            },
            Call::UpdateProductInfo { who, product_id, name, description, metadata } => {
                self.update_product_info(who, product_id, name, description, metadata)
            },
            Call::DeactivateProduct { who, product_id } => self.deactivate_product(
                who,
                product_id,
            ),
            Call::HandleCrossChainMessage { para_id, message, now } => {
                self.handle_cross_chain_message(para_id, message, now)
            },
            Call::Tick { verifier, now } => Step {
                state: self.tick(verifier, now).state,
                outcome: Ok(self.tick(verifier, now).effects),
            },
        }
    }
}

/// The effects of a step; none where the call was refused.
pub open spec fn effects_of(step: Step) -> Seq<EffectView> {
    match step.outcome {
        Ok(effects) => effects,
        Err(_) => Seq::empty(),
    }
}

} // verus!
