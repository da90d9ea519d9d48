//! The keyed store of burn states — one record per token identity — and the
//! three entry operations layered on the engine: initialize, mint, transfer.
//!
//! The operations decide and record only. Each one returns exactly what the
//! external collaborators must perform (the metadata registration to send to
//! the registry, the amount to credit, the burn and move the ledger must
//! carry out), and the caller performs it only after the operation here has
//! succeeded, committing both or neither.

use vstd::prelude::*;

use crate::errors::ErrorCode;
use crate::errors::OpError;
use crate::state::BurnState;
use crate::state::TransferPlan;
use crate::state::burn_limit_of;
use crate::state::mint_step;
use crate::state::transfer_plan_of;
use crate::state::transfer_step;

verus! {

/// Hard cap on units ever mintable for a token of this family.
pub const TOTAL_SUPPLY: u64 = 99_999_999_999_999;

/// Token display metadata supplied at initialization.
#[derive(Clone, Debug)]
pub struct InitTokenParams {
    pub name: String,
    pub symbol: String,
    pub uri: String,
    /// Decimal precision of the token's display units.
    pub decimals: u8,
}

/// What the external metadata registry must be asked to record, exactly
/// once, right after initialization succeeds. The update authority is the
/// token's own identity: the deterministic minting authority, not a human
/// signer.
#[derive(Clone, Debug)]
pub struct MetadataRegistration {
    pub token_identity: [u8; 32],
    pub name: String,
    pub symbol: String,
    pub uri: String,
    pub decimals: u8,
    pub update_authority: [u8; 32],
}

/// The record a token starts with: nothing minted, nothing burned, and the
/// burn ceiling fixed at 65% of the family's total supply.
pub open spec fn fresh_burn_state(token_identity: [u8; 32]) -> BurnState {
    BurnState {
        total_supply: TOTAL_SUPPLY,
        burned_amount: 0,
        burn_limit: burn_limit_of(TOTAL_SUPPLY) as u64,
        token_identity,
        minted_amount: 0,
    }
}

/// Byte-for-byte comparison of two token identities.
fn ids_equal(a: &[u8; 32], b: &[u8; 32]) -> (r: bool)
    ensures
        r <==> a@ == b@,
{
    let mut k: usize = 0;
    while k < 32
        invariant
            k <= 32,
            forall|m: int| 0 <= m < k ==> a@[m] == b@[m],
        decreases 32 - k,
    {
        if a[k] != b[k] {
            return false;
        }
        k = k + 1;
    }
    proof {
        assert(a@ =~= b@);
    }
    true
}

/// The keyed store: every persisted burn state, located by token identity.
#[derive(Clone, Debug)]
pub struct TokenStore {
    pub states: Vec<BurnState>,
}

impl TokenStore {
    /// The store's invariant: every record is well formed and no two records
    /// share a token identity.
    pub open spec fn wf(self) -> bool {
        &&& forall|i: int| 0 <= i < self.states@.len() ==> (#[trigger] self.states@[i]).wf()
        &&& forall|i: int, j: int|
            0 <= i < self.states@.len() && 0 <= j < self.states@.len() && i != j ==> (
            #[trigger] self.states@[i]).token_identity@ != (
            #[trigger] self.states@[j]).token_identity@
    }

    /// Whether some record governs the given token identity.
    pub open spec fn contains_token(self, token_identity: Seq<u8>) -> bool {
        exists|i: int|
            0 <= i < self.states@.len() && (#[trigger] self.states@[i]).token_identity@
                == token_identity
    }

    /// Index of the record governing the given identity; meaningful only
    /// when `contains_token` holds, and then unique in a well-formed store.
    pub open spec fn token_index(self, token_identity: Seq<u8>) -> int {
        choose|i: int|
            0 <= i < self.states@.len() && (#[trigger] self.states@[i]).token_identity@
                == token_identity
    }

    /// The record governing the given identity.
    pub open spec fn token_state(self, token_identity: Seq<u8>) -> BurnState {
        self.states@[self.token_index(token_identity)]
    }

    /// An empty store: no token initialized yet.
    pub fn new() -> (store: TokenStore)
        ensures
            store.wf(),
            store.states@.len() == 0,
    {
        TokenStore { states: Vec::new() }
    }

    /// Locate the record for a token identity by linear scan.
    fn find_token(&self, token_identity: &[u8; 32]) -> (r: Option<usize>)
        ensures
            match r {
                Some(i) => 0 <= i < self.states@.len() && self.states@[i as int].token_identity@
                    == token_identity@,
                None => !self.contains_token(token_identity@),
            },
    {
        let mut i: usize = 0;
        let n: usize = self.states.len();
        while i < n
            invariant
                n == self.states@.len(),
                i <= n,
                forall|m: int|
                    0 <= m < i ==> (#[trigger] self.states@[m]).token_identity@
                        != token_identity@,
            decreases n - i,
        {
            let candidate: BurnState = self.states[i];
            if ids_equal(&candidate.token_identity, token_identity) {
                return Some(i);
            }
            i = i + 1;
        }
        None
    }

    /// In a well-formed store an index whose record carries the identity is
    /// the one and only index `token_index` denotes.
    proof fn lemma_index_unique(self, i: int, token_identity: Seq<u8>)
        requires
            self.wf(),
            0 <= i < self.states@.len(),
            self.states@[i].token_identity@ == token_identity,
        ensures
            self.contains_token(token_identity),
            self.token_index(token_identity) == i,
    {
        assert(self.contains_token(token_identity));
        let j = self.token_index(token_identity);
        if j != i {
            assert(false);
        }
    }

    /// Initialize a token: create its burn state — exactly once per identity
    /// — and return the registration the external metadata registry must
    /// record. An identity that already has a burn state is refused with
    /// `AlreadyInitialized` and the store is unchanged.
    pub fn initialize_token(&mut self, token_identity: [u8; 32], metadata: InitTokenParams) -> (r:
        Result<MetadataRegistration, OpError>)
        requires
            old(self).wf(),
        ensures
            final(self).wf(),
            old(self).contains_token(token_identity@) ==> r == Err::<
                MetadataRegistration,
                OpError,
            >(OpError::AlreadyInitialized) && final(self).states@ == old(self).states@,
            !old(self).contains_token(token_identity@) ==> final(self).states@ == old(
                self,
            ).states@.push(fresh_burn_state(token_identity)) && (r matches Ok(reg)
                && reg.token_identity@ == token_identity@ && reg.update_authority@
                == token_identity@ && reg.name@ == metadata.name@ && reg.symbol@
                == metadata.symbol@ && reg.uri@ == metadata.uri@ && reg.decimals
                == metadata.decimals),
            final(self).contains_token(token_identity@),
    {
        match self.find_token(&token_identity) {
            Some(i) => {
                proof {
                    self.lemma_index_unique(i as int, token_identity@);
                }
                Err(OpError::AlreadyInitialized)
            },
            None => {
                let state = BurnState::create(TOTAL_SUPPLY, token_identity);
                self.states.push(state);
                proof {
                    let n = old(self).states@.len() as int;
                    assert(self.states@[n] == fresh_burn_state(token_identity));
                    assert(self.states@ =~= old(self).states@.push(
                        fresh_burn_state(token_identity),
                    ));
                    assert forall|p: int, q: int|
                        0 <= p < self.states@.len() && 0 <= q < self.states@.len() && p
                            != q implies (#[trigger] self.states@[p]).token_identity@ != (
                    #[trigger] self.states@[q]).token_identity@ by {
                        if p == n {
                            assert(self.states@[q] == old(self).states@[q]);
                        } else if q == n {
                            assert(self.states@[p] == old(self).states@[p]);
                        }
                    }
                }
                Ok(
                    MetadataRegistration {
                        token_identity,
                        name: metadata.name,
                        symbol: metadata.symbol,
                        uri: metadata.uri,
                        decimals: metadata.decimals,
                        update_authority: token_identity,
                    },
                )
            },
        }
    }

    /// Validate and record a mint of `amount` units against the token's burn
    /// state, returning the updated cumulative minted amount. On success the
    /// caller credits the destination for exactly `amount` units, authorized
    /// by the token's own minting authority; on any failure the store is
    /// unchanged and nothing may be credited.
    pub fn mint_tokens(&mut self, token_identity: &[u8; 32], amount: u64) -> (r: Result<
        u64,
        OpError,
    >)
        requires
            old(self).wf(),
        ensures
            final(self).wf(),
            !old(self).contains_token(token_identity@) ==> r == Err::<u64, OpError>(
                OpError::UnknownToken,
            ) && final(self).states@ == old(self).states@,
            old(self).contains_token(token_identity@) ==> final(self).states@ == old(
                self,
            ).states@.update(
                old(self).token_index(token_identity@),
                mint_step(old(self).token_state(token_identity@), amount),
            ) && ({
                let st = old(self).token_state(token_identity@);
                &&& st.minted_amount + amount <= st.total_supply ==> r == Ok::<u64, OpError>(
                    (st.minted_amount + amount) as u64,
                )
                &&& st.minted_amount + amount > u64::MAX ==> r == Err::<u64, OpError>(
                    OpError::Engine(ErrorCode::NumericalOverflow),
                )
                &&& st.minted_amount + amount <= u64::MAX && st.minted_amount + amount
                    > st.total_supply ==> r == Err::<u64, OpError>(
                    OpError::Engine(ErrorCode::ExceedsSupply),
                )
            }),
    {
        match self.find_token(token_identity) {
            None => Err(OpError::UnknownToken),
            Some(i) => {
                proof {
                    self.lemma_index_unique(i as int, token_identity@);
                }
                let mut st: BurnState = self.states[i];
                let outcome = st.record_mint(amount);
                let slot = &mut self.states[i];
                *slot = st;
                proof {
                    lemma_update_keeps_wf(*old(self), *self, i as int, st);
                }
                match outcome {
                    Ok(total) => Ok(total),
                    Err(e) => Err(OpError::Engine(e)),
                }
            },
        }
    }

    /// Compute and record the burn for one transfer of `amount` units
    /// against the token's burn state, returning the plan the external
    /// ledger must perform: while the burned counter is below the ceiling,
    /// burn 2% of the amount (truncated) from the source and move the rest;
    /// once the ceiling is reached, move the full amount with no burn. On
    /// any failure the store is unchanged and nothing may be moved.
    pub fn transfer(&mut self, token_identity: &[u8; 32], amount: u64) -> (r: Result<
        TransferPlan,
        OpError,
    >)
        requires
            old(self).wf(),
        ensures
            final(self).wf(),
            !old(self).contains_token(token_identity@) ==> r == Err::<TransferPlan, OpError>(
                OpError::UnknownToken,
            ) && final(self).states@ == old(self).states@,
            old(self).contains_token(token_identity@) ==> final(self).states@ == old(
                self,
            ).states@.update(
                old(self).token_index(token_identity@),
                transfer_step(old(self).token_state(token_identity@), amount),
            ) && r == Ok::<TransferPlan, OpError>(
                transfer_plan_of(old(self).token_state(token_identity@), amount),
            ),
    {
        match self.find_token(token_identity) {
            None => Err(OpError::UnknownToken),
            Some(i) => {
                proof {
                    self.lemma_index_unique(i as int, token_identity@);
                }
                let mut st: BurnState = self.states[i];
                let outcome = st.compute_and_record_burn(amount);
                let slot = &mut self.states[i];
                *slot = st;
                proof {
                    lemma_update_keeps_wf(*old(self), *self, i as int, st);
                }
                match outcome {
                    Ok(plan) => Ok(plan),
                    Err(e) => Err(OpError::Engine(e)),
                }
            },
        }
    }

    /// Read the burn state recorded for a token identity, if any. Querying
    /// borrows the store immutably, so re-querying without an intervening
    /// mint or transfer always returns the same record and changes no field.
    pub fn query(&self, token_identity: &[u8; 32]) -> (r: Option<BurnState>)
        requires
            self.wf(),
        ensures
            self.contains_token(token_identity@) ==> r == Some(
                self.token_state(token_identity@),
            ),
            !self.contains_token(token_identity@) ==> r == None::<BurnState>,
    {
        match self.find_token(token_identity) {
            Some(i) => {
                proof {
                    self.lemma_index_unique(i as int, token_identity@);
                }
                Some(self.states[i])
            },
            None => None,
        }
    }
}

/// Replacing one record with a well-formed record carrying the same token
/// identity keeps the whole store well formed.
proof fn lemma_update_keeps_wf(pre: TokenStore, post: TokenStore, i: int, st: BurnState)
    requires
        pre.wf(),
        0 <= i < pre.states@.len(),
        st.wf(),
        st.token_identity == pre.states@[i].token_identity,
        post.states@ == pre.states@.update(i, st),
    ensures
        post.wf(),
{
    assert forall|p: int| 0 <= p < post.states@.len() implies (
    #[trigger] post.states@[p]).wf() by {
        if p != i {
            assert(post.states@[p] == pre.states@[p]);
        }
    }
    assert forall|p: int, q: int|
        0 <= p < post.states@.len() && 0 <= q < post.states@.len() && p != q implies (
    #[trigger] post.states@[p]).token_identity@ != (
    #[trigger] post.states@[q]).token_identity@ by {
        assert(post.states@[p].token_identity == pre.states@[p].token_identity);
        assert(post.states@[q].token_identity == pre.states@[q].token_identity);
    }
}

} // verus!
