use vstd::prelude::*;
use std::collections::HashMap;
use crate::errors::ZyuraError;
use crate::state::{
    Config, Identity, LiquidityProvider, Policy, PolicyV, Product, ProofToken, TokenMetadata,
    TokenMetadataV,
};

verus! {

/// The mathematical value of the whole protocol state: every record kind as
/// a map from its key, plus the custodial balances of the settlement asset.
#[verifier::ext_equal]
pub struct StateView {
    /// The singleton config, present once `initialize` has run.
    pub config: Option<Config>,
    /// Products by product id.
    pub products: Map<u64, Product>,
    /// Policies by policy id.
    pub policies: Map<u64, PolicyV>,
    /// Liquidity-provider accounts by provider identity.
    pub providers: Map<Identity, LiquidityProvider>,
    /// Settlement-asset balance of each external account; an absent account
    /// holds zero.
    pub balances: Map<Identity, u64>,
    /// Settlement-asset balance of the protocol's custodial risk pool.
    pub pool_balance: u64,
    /// Proof-of-insurance tokens by mint identity.
    pub proof_tokens: Map<Identity, ProofToken>,
    /// Registered token metadata by mint identity.
    pub token_metadata: Map<Identity, TokenMetadataV>,
}

/// The balance an external account holds; absent accounts hold zero.
pub open spec fn balance_of(s: StateView, who: Identity) -> u64 {
    if s.balances.contains_key(who) {
        s.balances[who]
    } else {
        0
    }
}

impl StateView {
    /// Well-formedness of the whole state: every record agrees with its map
    /// key, every provider's accounting invariant holds, every proof token
    /// ever minted is frozen (soulbound), and a policy carries a payout time
    /// exactly when it has been paid out.
    pub open spec fn wf(self) -> bool {
        &&& forall|id: u64| self.products.contains_key(id) ==> (#[trigger] self.products[id]).id == id
        &&& forall|id: u64| self.policies.contains_key(id) ==> (#[trigger] self.policies[id]).id == id
        &&& forall|id: u64|
            self.policies.contains_key(id) ==> ((#[trigger] self.policies[id]).paid_at is Some
                <==> self.policies[id].status is PaidOut)
        &&& forall|id: Identity|
            self.providers.contains_key(id) ==> (#[trigger] self.providers[id]).wf(id)
        &&& forall|m: Identity|
            self.proof_tokens.contains_key(m) ==> (#[trigger] self.proof_tokens[m]).frozen
    }
}

/// The protocol state: addressable, strongly-typed records, each stored
/// under a key derived from its identifying field, together with the
/// custodial settlement-asset balances that delegated transfers move.
pub struct Protocol {
    pub config: Option<Config>,
    pub products: HashMap<u64, Product>,
    pub policies: HashMap<u64, Policy>,
    pub providers: HashMap<Identity, LiquidityProvider>,
    pub balances: HashMap<Identity, u64>,
    pub pool_balance: u64,
    pub proof_tokens: HashMap<Identity, ProofToken>,
    pub token_metadata: HashMap<Identity, TokenMetadata>,
}

impl View for Protocol {
    type V = StateView;

    open spec fn view(&self) -> StateView {
        StateView {
            config: self.config,
            products: self.products@,
            policies: self.policies@.map_values(|p: Policy| p@),
            providers: self.providers@,
            balances: self.balances@,
            pool_balance: self.pool_balance,
            proof_tokens: self.proof_tokens@,
            token_metadata: self.token_metadata@.map_values(|m: TokenMetadata| m@),
        }
    }
}

impl Protocol {
    /// The empty state: no config, no records, no balances.
    pub fn new() -> (s: Self)
        ensures
            s@.config is None,
            s@.products == Map::<u64, Product>::empty(),
            s@.policies == Map::<u64, PolicyV>::empty(),
            s@.providers == Map::<Identity, LiquidityProvider>::empty(),
            s@.balances == Map::<Identity, u64>::empty(),
            s@.pool_balance == 0,
            s@.proof_tokens == Map::<Identity, ProofToken>::empty(),
            s@.token_metadata == Map::<Identity, TokenMetadataV>::empty(),
            s@.wf(),
    {
        let s = Protocol {
            config: None,
            products: HashMap::new(),
            policies: HashMap::new(),
            providers: HashMap::new(),
            balances: HashMap::new(),
            pool_balance: 0,
            proof_tokens: HashMap::new(),
            token_metadata: HashMap::new(),
        };
        proof {
            assert(s@.policies =~= Map::<u64, PolicyV>::empty());
            assert(s@.token_metadata =~= Map::<Identity, TokenMetadataV>::empty());
        }
        s
    }

    /// The protocol config, if initialized.
    pub fn get_config(&self) -> (r: Option<Config>)
        ensures
            r == self@.config,
    {
        self.config
    }

    /// The product stored under `product_id`, if any.
    pub fn get_product(&self, product_id: u64) -> (r: Option<&Product>)
        ensures
            match r {
                Some(p) => self@.products.contains_key(product_id) && *p == self@.products[product_id],
                None => !self@.products.contains_key(product_id),
            },
    {
        self.products.get(&product_id)
    }

    /// The policy stored under `policy_id`, if any.
    pub fn get_policy(&self, policy_id: u64) -> (r: Option<&Policy>)
        ensures
            match r {
                Some(p) => self@.policies.contains_key(policy_id) && p@ == self@.policies[policy_id],
                None => !self@.policies.contains_key(policy_id),
            },
    {
        let r = self.policies.get(&policy_id);
        proof {
            match r {
                Some(p) => {
                    assert(self@.policies.contains_key(policy_id));
                    assert(self@.policies[policy_id] == self.policies@[policy_id]@);
                },
                None => {
                    assert(!self.policies@.contains_key(policy_id));
                    assert(!self@.policies.contains_key(policy_id));
                },
            }
        }
        r
    }

    /// The liquidity-provider record of `provider`, if any.
    pub fn get_provider(&self, provider: Identity) -> (r: Option<&LiquidityProvider>)
        ensures
            match r {
                Some(p) => self@.providers.contains_key(provider) && *p == self@.providers[provider],
                None => !self@.providers.contains_key(provider),
            },
    {
        self.providers.get(&provider)
    }

    /// The proof-of-insurance token minted under `nft_mint`, if any.
    pub fn get_proof_token(&self, nft_mint: Identity) -> (r: Option<&ProofToken>)
        ensures
            match r {
                Some(t) => self@.proof_tokens.contains_key(nft_mint) && *t == self@.proof_tokens[nft_mint],
                None => !self@.proof_tokens.contains_key(nft_mint),
            },
    {
        self.proof_tokens.get(&nft_mint)
    }

    /// The metadata registered for the token minted under `nft_mint`, if any.
    pub fn get_token_metadata(&self, nft_mint: Identity) -> (r: Option<&TokenMetadata>)
        ensures
            match r {
                Some(m) => self@.token_metadata.contains_key(nft_mint) && m@ == self@.token_metadata[nft_mint],
                None => !self@.token_metadata.contains_key(nft_mint),
            },
    {
        let r = self.token_metadata.get(&nft_mint);
        proof {
            match r {
                Some(m) => {
                    assert(self@.token_metadata.contains_key(nft_mint));
                    assert(self@.token_metadata[nft_mint] == self.token_metadata@[nft_mint]@);
                },
                None => {
                    assert(!self.token_metadata@.contains_key(nft_mint));
                    assert(!self@.token_metadata.contains_key(nft_mint));
                },
            }
        }
        r
    }

    /// The settlement-asset balance of an external account.
    pub fn balance_of(&self, who: Identity) -> (r: u64)
        ensures
            r == balance_of(self@, who),
    {
        match self.balances.get(&who) {
            Some(b) => *b,
            None => 0,
        }
    }

    /// Endows an external account with settlement assets, as the asset's
    /// issuer would outside the protocol. Fails if the credited balance
    /// would overflow; the state is then unchanged.
    pub fn credit_account(&mut self, who: Identity, amount: u64) -> (r: Result<(), ZyuraError>)
        ensures
            match r {
                Ok(()) => {
                    &&& balance_of(old(self)@, who) + amount <= u64::MAX
                    &&& final(self)@ == (StateView {
                        balances: old(self)@.balances.insert(
                            who,
                            (balance_of(old(self)@, who) + amount) as u64,
                        ),
                        ..old(self)@
                    })
                },
                Err(e) => {
                    &&& e == ZyuraError::BalanceOverflow
                    &&& balance_of(old(self)@, who) + amount > u64::MAX
                    &&& final(self)@ == old(self)@
                },
            },
    {
        let bal = self.balance_of(who);
        match bal.checked_add(amount) {
            None => Err(ZyuraError::BalanceOverflow),
            Some(v) => {
                self.balances.insert(who, v);
                proof {
                    assert(self@ =~= (StateView {
                        balances: old(self)@.balances.insert(who, v),
                        ..old(self)@
                    }));
                }
                Ok(())
            },
        }
    }
}

} // verus!
