//! How a pallet starts.
use crate::invariants::lemma_genesis;
use crate::keys::{AccountId, Balance};
use crate::model::{bind_all, firsts, PalletView};
use crate::runtime_integration::{ClaimType, ClaimTypeView};
use crate::storage::Pallet;
use crate::types::Config;
use vstd::prelude::*;

verus! {

/// What a pallet starts with.
#[derive(Clone, Debug)]
pub struct GenesisConfig {
    /// The accounts that are verifiers from the start, or that are named
    /// as none.
    pub authorized_verifiers: Vec<(AccountId, bool)>,
    /// The fees by claim type.
    pub verification_fees: Vec<(ClaimType, Balance)>,
}

impl Default for GenesisConfig {
    /// No verifiers and no fees.
    fn default() -> (genesis: GenesisConfig)
        ensures
            genesis.authorized_verifiers@.len() == 0,
            genesis.verification_fees@.len() == 0,
    {
        GenesisConfig { authorized_verifiers: Vec::new(), verification_fees: Vec::new() }
    }
}

impl GenesisConfig {
    /// The pallet that starts with this: no products, the verifiers and
    /// fees listed here, the later of two entries for the same account or
    /// claim type winning, and the configured fee for origin-country claims
    /// where no fee is listed for them.
    pub fn build(&self, config: Config) -> (pallet: Pallet)
        ensures
            pallet@ == PalletView::genesis(
                config,
                self.authorized_verifiers.deep_view(),
                self.verification_fees.deep_view(),
            ),
            pallet.wf(),
    {
        let ghost verifiers = self.authorized_verifiers.deep_view();
        let ghost fees = self.verification_fees.deep_view();
        let mut pallet = Pallet::empty(config);
        let mut i: usize = 0;
        while i < self.authorized_verifiers.len()
            invariant
                i <= self.authorized_verifiers.len(),
                verifiers == self.authorized_verifiers.deep_view(),
                pallet@ == (PalletView {
                    config,
                    records: Seq::empty(),
                    pending: Seq::empty(),
                    cross_chain: Seq::empty(),
                    fees: Seq::empty(),
                    verifiers: bind_all(Seq::empty(), verifiers.take(i as int)),
                }),
            decreases self.authorized_verifiers.len() - i,
        {
            let (account, authorized) = self.authorized_verifiers[i];
            pallet.bind_verifier(account, authorized);
            proof {
                let upto = verifiers.take(i + 1);
                assert(upto.drop_last() =~= verifiers.take(i as int));
            }
            i += 1;
        }
        assert(verifiers.take(i as int) =~= verifiers);
        let mut j: usize = 0;
        while j < self.verification_fees.len()
            invariant
                j <= self.verification_fees.len(),
                fees == self.verification_fees.deep_view(),
                pallet@ == (PalletView {
                    config,
                    records: Seq::empty(),
                    pending: Seq::empty(),
                    cross_chain: Seq::empty(),
                    fees: bind_all(Seq::empty(), fees.take(j as int)),
                    verifiers: bind_all(Seq::empty(), verifiers),
                }),
            decreases self.verification_fees.len() - j,
        {
            let claim_type = self.verification_fees[j].0.duplicate();
            let fee = self.verification_fees[j].1;
            pallet.bind_fee(claim_type, fee);
            proof {
                let upto = fees.take(j + 1);
                assert(upto.drop_last() =~= fees.take(j as int));
            }
            j += 1;
        }
        assert(fees.take(j as int) =~= fees);
        if !pallet.has_fee(&ClaimType::OriginCountry) {
            proof {
                crate::keys::lemma_position(
                    firsts(pallet@.fees),
                    ClaimTypeView::OriginCountry,
                );
            }
            pallet.bind_fee(ClaimType::OriginCountry, config.verification_fee);
        }
        proof {
            lemma_genesis(config, verifiers, fees);
        }
        pallet
    }
}

} // verus!
