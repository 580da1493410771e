//! Multi-stablecoin vault: deposits of supported tokens credited per
//! depositor, claims against those credits, and payroll claims proven
//! against a Merkle root per payroll run (each claimant at most once).

use vstd::prelude::*;
use std::collections::HashMap;
use crate::types::{Address, ContractError, Transfer, fits_i128};
use crate::merkle::{sha256, sha256_digest, verify_merkle_proof, merkle_climb, node_views, MAX_HASH_INPUT};
use crate::swap_router::{balance_key, make_balance_key};
use crate::TaskManagerContract;

verus! {

broadcast use vstd::std_specs::hash::group_hash_axioms;

/// Ledger storage keys of the vault records.
#[derive(Clone, Copy, Debug, PartialEq, Eq, Structural)]
pub enum VaultKey {
    SupportedTokens,
    VaultBalance(Address),
    DepositorBalance(Address, Address),
    PayrollRoot(u32),
    PayrollClaimed(u32, Address),
}

/// The admin check of vault administration.
pub open spec fn vault_admin_outcome(caller: Address, admin: Option<Address>) -> Result<(), ContractError> {
    if admin is None {
        Err(ContractError::NotInitialized)
    } else if caller != admin->0 {
        Err(ContractError::NotAdmin)
    } else {
        Ok(())
    }
}

/// Supported tokens, the total held per token, each depositor's credit per
/// token, the payroll roots and the payroll claims made.
#[derive(Clone)]
pub struct Vault {
    pub supported: Vec<Address>,
    pub totals: HashMap<Address, i128>,
    pub credits: HashMap<u128, i128>,
    pub payroll_roots: HashMap<u32, [u8; 32]>,
    pub payroll_claimed: HashMap<u128, bool>,
}

impl Vault {
    /// Every depositor credit is non-negative.
    pub open spec fn wf(&self) -> bool {
        forall|k: u128| #[trigger] self.credits@.contains_key(k) ==> self.credits@[k] >= 0
    }

    /// Total held of `token`, zero if none.
    pub open spec fn total_of(&self, token: Address) -> i128 {
        if self.totals@.contains_key(token) { self.totals@[token] } else { 0 }
    }

    /// `depositor`'s credit of `token`, zero if none.
    pub open spec fn credit_of(&self, depositor: Address, token: Address) -> i128 {
        let k = balance_key(depositor, token);
        if self.credits@.contains_key(k) { self.credits@[k] } else { 0 }
    }

    /// Whether `claimant` has claimed from payroll `payroll_id`.
    pub open spec fn claimed(&self, payroll_id: u32, claimant: Address) -> bool {
        self.payroll_claimed@.contains_key(balance_key(payroll_id as u64, claimant))
    }

    pub fn new() -> (r: Self)
        ensures
            r.supported@.len() == 0,
            r.totals@ == Map::<Address, i128>::empty(),
            r.credits@ == Map::<u128, i128>::empty(),
            r.payroll_roots@ == Map::<u32, [u8; 32]>::empty(),
            r.payroll_claimed@ == Map::<u128, bool>::empty(),
            r.wf(),
    {
        Vault {
            supported: Vec::new(),
            totals: HashMap::new(),
            credits: HashMap::new(),
            payroll_roots: HashMap::new(),
            payroll_claimed: HashMap::new(),
        }
    }

    /// Whether `token` is supported.
    pub fn is_supported_token(&self, token: Address) -> (r: bool)
        ensures
            r == self.supported@.contains(token),
    {
        crate::multisig::contains_address(&self.supported, token)
    }

    /// The supported tokens, in order of addition.
    pub fn get_supported_tokens(&self) -> (r: &Vec<Address>)
        ensures
            r@ == self.supported@,
    {
        &self.supported
    }

    /// The admin adds `token` to the supported tokens (once).
    pub fn add_supported_token(&mut self, caller: Address, admin: Option<Address>, token: Address) -> (r: Result<(), ContractError>)
        requires
            old(self).wf(),
        ensures
            final(self).wf(),
            r == vault_admin_outcome(caller, admin),
            r is Err ==> *final(self) == *old(self),
            r is Ok ==> *final(self) == (Vault { supported: final(self).supported, ..*old(self) })
                && final(self).supported@ == (if old(self).supported@.contains(token) {
                    old(self).supported@
                } else {
                    old(self).supported@.push(token)
                }),
    {
        match admin {
            None => return Err(ContractError::NotInitialized),
            Some(a) => {
                if caller != a {
                    return Err(ContractError::NotAdmin);
                }
            },
        }
        if !self.is_supported_token(token) {
            self.supported.push(token);
        }
        Ok(())
    }

    /// The admin removes `token` from the supported tokens.
    pub fn remove_supported_token(&mut self, caller: Address, admin: Option<Address>, token: Address) -> (r: Result<(), ContractError>)
        requires
            old(self).wf(),
        ensures
            final(self).wf(),
            r == vault_admin_outcome(caller, admin),
            r is Err ==> *final(self) == *old(self),
            r is Ok ==> *final(self) == (Vault { supported: final(self).supported, ..*old(self) })
                && final(self).supported@ == crate::access_control::without_member(old(self).supported@, token),
    {
        match admin {
            None => return Err(ContractError::NotInitialized),
            Some(a) => {
                if caller != a {
                    return Err(ContractError::NotAdmin);
                }
            },
        }
        let mut kept: Vec<Address> = Vec::new();
        let mut i: usize = 0;
        while i < self.supported.len()
            invariant
                0 <= i <= self.supported@.len(),
                kept@ == crate::access_control::without_member(self.supported@.take(i as int), token),
            decreases self.supported@.len() - i,
        {
            proof {
                reveal_with_fuel(Seq::filter, 1);
                assert(self.supported@.take(i + 1).drop_last() == self.supported@.take(i as int));
            }
            let t = self.supported[i];
            if t != token {
                kept.push(t);
            }
            i = i + 1;
        }
        proof {
            assert(self.supported@.take(self.supported@.len() as int) == self.supported@);
        }
        self.supported = kept;
        Ok(())
    }

    /// Total held of `token`.
    pub fn get_vault_balance(&self, token: Address) -> (r: i128)
        ensures
            r == self.total_of(token),
    {
        match self.totals.get(&token) {
            Some(v) => *v,
            None => 0,
        }
    }

    /// `depositor`'s credit of `token`.
    pub fn get_depositor_balance(&self, depositor: Address, token: Address) -> (r: i128)
        ensures
            r == self.credit_of(depositor, token),
    {
        let k = make_balance_key(depositor, token);
        match self.credits.get(&k) {
            Some(v) => *v,
            None => 0,
        }
    }

    /// What a deposit leaves: the token's total and the depositor's credit
    /// grown by `amount`, nothing else changed.
    pub open spec fn deposit_applied(&self, old: &Self, depositor: Address, token: Address, amount: i128) -> bool {
        &&& self.totals@ == old.totals@.insert(token, (old.total_of(token) + amount) as i128)
        &&& self.credits@ == old.credits@.insert(balance_key(depositor, token), (old.credit_of(depositor, token) + amount) as i128)
        &&& self.supported == old.supported
        &&& self.payroll_roots == old.payroll_roots
        &&& self.payroll_claimed == old.payroll_claimed
    }

    /// What a claim leaves: the token's total and the claimant's credit
    /// lowered by `amount`, nothing else changed.
    pub open spec fn claim_applied(&self, old: &Self, claimant: Address, token: Address, amount: i128) -> bool {
        &&& self.totals@ == old.totals@.insert(token, (old.total_of(token) - amount) as i128)
        &&& self.credits@ == old.credits@.insert(balance_key(claimant, token), (old.credit_of(claimant, token) - amount) as i128)
        &&& self.supported == old.supported
        &&& self.payroll_roots == old.payroll_roots
        &&& self.payroll_claimed == old.payroll_claimed
    }

    /// What depositing gives.
    pub open spec fn deposit_outcome(&self, depositor: Address, token: Address, amount: i128) -> Result<(), ContractError> {
        if amount <= 0 {
            Err(ContractError::InvalidAmount)
        } else if !self.supported@.contains(token) {
            Err(ContractError::TokenNotSupported)
        } else if !fits_i128(self.total_of(token) + amount) || !fits_i128(self.credit_of(depositor, token) + amount) {
            Err(ContractError::ArithmeticOverflow)
        } else {
            Ok(())
        }
    }

    /// `depositor` deposits `amount` of a supported `token`: the vault's
    /// total and the depositor's credit grow by it. Returns the deposit to
    /// perform into `contract_address`.
    pub fn deposit(&mut self, depositor: Address, token: Address, amount: i128, contract_address: Address) -> (r: Result<Transfer, ContractError>)
        requires
            old(self).wf(),
        ensures
            final(self).wf(),
            match old(self).deposit_outcome(depositor, token, amount) {
                Err(e) => r == Err::<Transfer, ContractError>(e),
                Ok(()) => r == Ok::<Transfer, ContractError>(Transfer { token, from: depositor, to: contract_address, amount }),
            },
            r is Err ==> *final(self) == *old(self),
            r is Ok ==> final(self).deposit_applied(old(self), depositor, token, amount),
    {
        if amount <= 0 {
            return Err(ContractError::InvalidAmount);
        }
        if !self.is_supported_token(token) {
            return Err(ContractError::TokenNotSupported);
        }
        let total = match self.get_vault_balance(token).checked_add(amount) {
            Some(v) => v,
            None => return Err(ContractError::ArithmeticOverflow),
        };
        let credit = match self.get_depositor_balance(depositor, token).checked_add(amount) {
            Some(v) => v,
            None => return Err(ContractError::ArithmeticOverflow),
        };
        self.totals.insert(token, total);
        let k = make_balance_key(depositor, token);
        self.credits.insert(k, credit);
        Ok(Transfer { token, from: depositor, to: contract_address, amount })
    }

    /// What claiming gives.
    pub open spec fn claim_outcome(&self, claimant: Address, token: Address, amount: i128) -> Result<(), ContractError> {
        if amount <= 0 {
            Err(ContractError::InvalidAmount)
        } else if self.credit_of(claimant, token) < amount {
            Err(ContractError::InsufficientBalance)
        } else if !fits_i128(self.total_of(token) - amount) {
            Err(ContractError::ArithmeticOverflow)
        } else {
            Ok(())
        }
    }

    /// `claimant` draws `amount` of `token` against their credit; returns
    /// the payment from `contract_address`.
    pub fn claim(&mut self, claimant: Address, token: Address, amount: i128, contract_address: Address) -> (r: Result<Transfer, ContractError>)
        requires
            old(self).wf(),
        ensures
            final(self).wf(),
            match old(self).claim_outcome(claimant, token, amount) {
                Err(e) => r == Err::<Transfer, ContractError>(e),
                Ok(()) => r == Ok::<Transfer, ContractError>(Transfer { token, from: contract_address, to: claimant, amount }),
            },
            r is Err ==> *final(self) == *old(self),
            r is Ok ==> final(self).claim_applied(old(self), claimant, token, amount),
    {
        if amount <= 0 {
            return Err(ContractError::InvalidAmount);
        }
        let credit = self.get_depositor_balance(claimant, token);
        if credit < amount {
            return Err(ContractError::InsufficientBalance);
        }
        let total = match self.get_vault_balance(token).checked_sub(amount) {
            Some(v) => v,
            None => return Err(ContractError::ArithmeticOverflow),
        };
        let k = make_balance_key(claimant, token);
        self.credits.insert(k, credit - amount);
        self.totals.insert(token, total);
        Ok(Transfer { token, from: contract_address, to: claimant, amount })
    }

    /// The admin sets the Merkle root of payroll `payroll_id`.
    pub fn set_payroll_root(&mut self, caller: Address, admin: Option<Address>, payroll_id: u32, root: [u8; 32]) -> (r: Result<(), ContractError>)
        requires
            old(self).wf(),
        ensures
            final(self).wf(),
            r == vault_admin_outcome(caller, admin),
            r is Err ==> *final(self) == *old(self),
            r is Ok ==> *final(self) == (Vault { payroll_roots: final(self).payroll_roots, ..*old(self) })
                && final(self).payroll_roots@ == old(self).payroll_roots@.insert(payroll_id, root),
    {
        match admin {
            None => return Err(ContractError::NotInitialized),
            Some(a) => {
                if caller != a {
                    return Err(ContractError::NotAdmin);
                }
            },
        }
        self.payroll_roots.insert(payroll_id, root);
        Ok(())
    }

    /// What a payroll claim gives; `leaf_data` is the host's encoding of
    /// (claimant, token, amount), whose SHA-256 is the Merkle leaf.
    pub open spec fn payroll_outcome(&self, claimant: Address, token: Address, payroll_id: u32, amount: i128,
        leaf_data: Seq<u8>, proof: Seq<[u8; 32]>) -> Result<(), ContractError> {
        if amount <= 0 {
            Err(ContractError::InvalidAmount)
        } else if self.claimed(payroll_id, claimant) {
            Err(ContractError::PayrollAlreadyClaimed)
        } else if !self.payroll_roots@.contains_key(payroll_id) {
            Err(ContractError::PayrollRootNotFound)
        } else if merkle_climb(sha256_digest(leaf_data), node_views(proof)) != self.payroll_roots@[payroll_id]@ {
            Err(ContractError::InvalidMerkleProof)
        } else if self.total_of(token) < amount {
            Err(ContractError::InsufficientBalance)
        } else {
            Ok(())
        }
    }

    /// `claimant` claims `amount` of `token` from payroll `payroll_id`,
    /// proving their leaf against the payroll's root. Each claimant claims
    /// once per payroll; the vault's total of `token` pays for it.
    pub fn claim_payroll(
        &mut self,
        claimant: Address,
        token: Address,
        payroll_id: u32,
        amount: i128,
        leaf_data: &[u8],
        proof: &Vec<[u8; 32]>,
        contract_address: Address,
    ) -> (r: Result<Transfer, ContractError>)
        requires
            old(self).wf(),
            leaf_data@.len() <= MAX_HASH_INPUT,
        ensures
            final(self).wf(),
            match old(self).payroll_outcome(claimant, token, payroll_id, amount, leaf_data@, proof@) {
                Err(e) => r == Err::<Transfer, ContractError>(e),
                Ok(()) => r == Ok::<Transfer, ContractError>(Transfer { token, from: contract_address, to: claimant, amount }),
            },
            r is Err ==> *final(self) == *old(self),
            r is Ok ==> {
                &&& final(self).payroll_claimed@ == old(self).payroll_claimed@.insert(balance_key(payroll_id as u64, claimant), true)
                &&& final(self).totals@ == old(self).totals@.insert(token, (old(self).total_of(token) - amount) as i128)
                &&& final(self).credits == old(self).credits
                &&& final(self).supported == old(self).supported
                &&& final(self).payroll_roots == old(self).payroll_roots
            },
    {
        if amount <= 0 {
            return Err(ContractError::InvalidAmount);
        }
        let claim_key = make_balance_key(payroll_id as u64, claimant);
        if self.payroll_claimed.contains_key(&claim_key) {
            return Err(ContractError::PayrollAlreadyClaimed);
        }
        let root: [u8; 32] = match self.payroll_roots.get(&payroll_id) {
            Some(r) => *r,
            None => return Err(ContractError::PayrollRootNotFound),
        };
        let leaf = sha256(leaf_data);
        if !verify_merkle_proof(&root, &leaf, proof) {
            return Err(ContractError::InvalidMerkleProof);
        }
        let total = self.get_vault_balance(token);
        if total < amount {
            return Err(ContractError::InsufficientBalance);
        }
        self.payroll_claimed.insert(claim_key, true);
        self.totals.insert(token, total - amount);
        Ok(Transfer { token, from: contract_address, to: claimant, amount })
    }
}


impl TaskManagerContract {
    /// Whether `token` is a supported vault currency.
    pub fn is_token_supported(&self, token: Address) -> (r: bool)
        ensures
            r == self.vault.supported@.contains(token),
    {
        self.vault.is_supported_token(token)
    }

    /// The contract admin adds `token` to the supported vault tokens.
    pub fn add_supported_token(&mut self, caller: Address, token: Address) -> (r: Result<(), ContractError>)
        requires
            old(self).wf(),
        ensures
            final(self).wf(),
            r == vault_admin_outcome(caller, old(self).admin_opt()),
            r is Err ==> *final(self) == *old(self),
            *final(self) == (TaskManagerContract { vault: final(self).vault, ..*old(self) }),
            r is Ok ==> final(self).vault == (Vault { supported: final(self).vault.supported, ..old(self).vault })
                && final(self).vault.supported@ == (if old(self).vault.supported@.contains(token) {
                    old(self).vault.supported@
                } else {
                    old(self).vault.supported@.push(token)
                }),
    {
        let admin = self.get_admin();
        self.vault.add_supported_token(caller, admin, token)
    }

    /// The contract admin removes `token` from the supported vault tokens.
    pub fn remove_supported_token(&mut self, caller: Address, token: Address) -> (r: Result<(), ContractError>)
        requires
            old(self).wf(),
        ensures
            final(self).wf(),
            r == vault_admin_outcome(caller, old(self).admin_opt()),
            r is Err ==> *final(self) == *old(self),
            *final(self) == (TaskManagerContract { vault: final(self).vault, ..*old(self) }),
            r is Ok ==> final(self).vault == (Vault { supported: final(self).vault.supported, ..old(self).vault })
                && final(self).vault.supported@ == crate::access_control::without_member(old(self).vault.supported@, token),
    {
        let admin = self.get_admin();
        self.vault.remove_supported_token(caller, admin, token)
    }

    /// The supported vault tokens, in order of addition.
    pub fn get_supported_tokens(&self) -> (r: &Vec<Address>)
        ensures
            r@ == self.vault.supported@,
    {
        self.vault.get_supported_tokens()
    }

    /// The contract admin sets the Merkle root of payroll `payroll_id`.
    pub fn set_payroll_root(&mut self, caller: Address, payroll_id: u32, root: [u8; 32]) -> (r: Result<(), ContractError>)
        requires
            old(self).wf(),
        ensures
            final(self).wf(),
            r == vault_admin_outcome(caller, old(self).admin_opt()),
            r is Err ==> *final(self) == *old(self),
            *final(self) == (TaskManagerContract { vault: final(self).vault, ..*old(self) }),
            r is Ok ==> final(self).vault == (Vault { payroll_roots: final(self).vault.payroll_roots, ..old(self).vault })
                && final(self).vault.payroll_roots@ == old(self).vault.payroll_roots@.insert(payroll_id, root),
    {
        let admin = self.get_admin();
        self.vault.set_payroll_root(caller, admin, payroll_id, root)
    }

    /// `claimant` claims `amount` of `token` from payroll `payroll_id` (see
    /// `Vault::claim_payroll`); returns the payment from the contract.
    pub fn claim_payroll(
        &mut self,
        claimant: Address,
        token: Address,
        payroll_id: u32,
        amount: i128,
        leaf_data: &[u8],
        proof: &Vec<[u8; 32]>,
    ) -> (r: Result<Transfer, ContractError>)
        requires
            old(self).wf(),
            leaf_data@.len() <= MAX_HASH_INPUT,
        ensures
            final(self).wf(),
            match old(self).vault.payroll_outcome(claimant, token, payroll_id, amount, leaf_data@, proof@) {
                Err(e) => r == Err::<Transfer, ContractError>(e),
                Ok(()) => r == Ok::<Transfer, ContractError>(Transfer { token, from: old(self).contract_address, to: claimant, amount }),
            },
            r is Err ==> *final(self) == *old(self),
            *final(self) == (TaskManagerContract { vault: final(self).vault, ..*old(self) }),
            r is Ok ==> {
                &&& final(self).vault.payroll_claimed@ == old(self).vault.payroll_claimed@.insert(balance_key(payroll_id as u64, claimant), true)
                &&& final(self).vault.totals@ == old(self).vault.totals@.insert(token, (old(self).vault.total_of(token) - amount) as i128)
                &&& final(self).vault.credits == old(self).vault.credits
                &&& final(self).vault.supported == old(self).vault.supported
                &&& final(self).vault.payroll_roots == old(self).vault.payroll_roots
            },
    {
        let contract_address = self.contract_address;
        self.vault.claim_payroll(claimant, token, payroll_id, amount, leaf_data, proof, contract_address)
    }

    /// `depositor` deposits `amount` of a supported `token` into the vault;
    /// returns the deposit to perform into the contract.
    pub fn deposit_to_vault(&mut self, depositor: Address, token: Address, amount: i128) -> (r: Result<Transfer, ContractError>)
        requires
            old(self).wf(),
        ensures
            final(self).wf(),
            match old(self).vault.deposit_outcome(depositor, token, amount) {
                Err(e) => r == Err::<Transfer, ContractError>(e),
                Ok(()) => r == Ok::<Transfer, ContractError>(Transfer { token, from: depositor, to: old(self).contract_address, amount }),
            },
            r is Err ==> *final(self) == *old(self),
            r is Ok ==> final(self).vault.deposit_applied(&old(self).vault, depositor, token, amount),
            *final(self) == (TaskManagerContract { vault: final(self).vault, ..*old(self) }),
    {
        let contract_address = self.contract_address;
        self.vault.deposit(depositor, token, amount, contract_address)
    }

    /// `claimant` draws `amount` of `token` against their vault credit;
    /// returns the payment from the contract.
    pub fn claim_from_vault(&mut self, claimant: Address, token: Address, amount: i128) -> (r: Result<Transfer, ContractError>)
        requires
            old(self).wf(),
        ensures
            final(self).wf(),
            match old(self).vault.claim_outcome(claimant, token, amount) {
                Err(e) => r == Err::<Transfer, ContractError>(e),
                Ok(()) => r == Ok::<Transfer, ContractError>(Transfer { token, from: old(self).contract_address, to: claimant, amount }),
            },
            r is Err ==> *final(self) == *old(self),
            r is Ok ==> final(self).vault.claim_applied(&old(self).vault, claimant, token, amount),
            *final(self) == (TaskManagerContract { vault: final(self).vault, ..*old(self) }),
    {
        let contract_address = self.contract_address;
        self.vault.claim(claimant, token, amount, contract_address)
    }

    /// Total the vault holds of `token`.
    pub fn get_token_vault_balance(&self, token: Address) -> (r: i128)
        ensures
            r == self.vault.total_of(token),
    {
        self.vault.get_vault_balance(token)
    }

    /// `depositor`'s vault credit of `token`.
    pub fn get_depositor_vault_balance(&self, depositor: Address, token: Address) -> (r: i128)
        ensures
            r == self.vault.credit_of(depositor, token),
    {
        self.vault.get_depositor_balance(depositor, token)
    }
}

} // verus!
