//! Zero-knowledge identity attestations: an admin registers the
//! verification key of each proving circuit; a subject presents a Groth16
//! proof with public signals and a nullifier. The attestation is accepted
//! when its circuit is registered, the arity and encodings are right, the
//! commitment binds the nullifier to the signals, and the nullifier has not
//! been spent; accepted nullifiers are spent, so each attests at most once.

use vstd::prelude::*;
use crate::types::{Address, ContractError};
use crate::merkle::{sha256, sha256_digest, bytes_eq, MAX_HASH_INPUT};

verus! {

/// Length of an uncompressed BLS12-381 G1 point.
pub const G1_POINT_LEN: usize = 96;
/// Length of an uncompressed BLS12-381 G2 point.
pub const G2_POINT_LEN: usize = 192;
/// Length of a field element.
pub const FIELD_ELEMENT_LEN: usize = 32;
/// Most public signals an attestation may carry.
pub const MAX_PUBLIC_SIGNALS: usize = 32;

/// A proving circuit, identified by a stable numeric id (the host keeps the
/// mapping between circuit symbols and ids).
pub type CircuitId = u64;

#[derive(Clone, Debug)]
pub struct Groth16Proof {
    pub a: Vec<u8>,
    pub b: Vec<u8>,
    pub c: Vec<u8>,
}

#[derive(Clone, Debug)]
pub struct VerificationKey {
    pub circuit_id: CircuitId,
    pub curve: u64,
    pub alpha_beta: Vec<u8>,
    pub gamma: Vec<u8>,
    pub delta: Vec<u8>,
    pub ic: Vec<Vec<u8>>,
    pub registered_at: u64,
    pub registered_by: Address,
}

#[derive(Clone, Debug)]
pub struct IdentityAttestation {
    pub circuit_id: CircuitId,
    pub subject: Address,
    pub proof: Groth16Proof,
    pub public_signals: Vec<[u8; 32]>,
    pub nullifier: [u8; 32],
    pub attestation_commitment: [u8; 32],
}

#[derive(Clone, Copy, Debug)]
pub struct AttestationReceipt {
    pub nullifier: [u8; 32],
    pub subject: Address,
    pub circuit_id: CircuitId,
    pub verified_at: u64,
}

#[derive(Clone, Copy, Debug, PartialEq, Eq, Structural)]
pub enum AttestationError {
    CircuitNotRegistered,
    MalformedProof,
    PublicSignalMismatch,
    CommitmentMismatch,
    NullifierAlreadyUsed,
    PairingCheckFailed,
}

/// Ledger storage keys of the attestation records.
#[derive(Clone, Copy, Debug)]
pub enum ZkStorageKey {
    Admin,
    Vk(CircuitId),
    Nullifier([u8; 32]),
    Attestation([u8; 32]),
    AttestationCount,
}

/// The signals' bytes, in order.
pub open spec fn signals_bytes(signals: Seq<[u8; 32]>) -> Seq<u8>
    decreases signals.len(),
{
    if signals.len() == 0 { Seq::empty() } else { signals_bytes(signals.drop_last()) + signals.last()@ }
}

/// The commitment binding `nullifier` to `signals`: SHA-256 of the
/// nullifier followed by every signal.
pub open spec fn commitment_of(nullifier: [u8; 32], signals: Seq<[u8; 32]>) -> Seq<u8> {
    sha256_digest(nullifier@ + signals_bytes(signals))
}

/// Whether every byte of `b` is zero.
pub open spec fn all_zero(b: Seq<u8>) -> bool {
    forall|i: int| 0 <= i < b.len() ==> b[i] == 0
}

/// The proof's points have their encoded lengths and are not all-zero
/// blobs, and every IC element of the key is a G1 point.
pub open spec fn proof_well_formed(vk: &VerificationKey, proof: &Groth16Proof) -> bool {
    &&& proof.a@.len() == G1_POINT_LEN && proof.c@.len() == G1_POINT_LEN && proof.b@.len() == G2_POINT_LEN
    &&& !all_zero(proof.a@) && !all_zero(proof.b@) && !all_zero(proof.c@)
    &&& forall|i: int| 0 <= i < vk.ic@.len() ==> (#[trigger] vk.ic@[i])@.len() == G1_POINT_LEN
}

fn is_zero_bytes(bytes: &Vec<u8>) -> (r: bool)
    ensures
        r == all_zero(bytes@),
{
    let mut i: usize = 0;
    while i < bytes.len()
        invariant
            0 <= i <= bytes@.len(),
            forall|k: int| 0 <= k < i ==> bytes@[k] == 0,
        decreases bytes@.len() - i,
    {
        if bytes[i] != 0 {
            return false;
        }
        i = i + 1;
    }
    true
}

/// Whether `proof` and `vk` are structurally well formed.
pub fn validate_proof_structure(vk: &VerificationKey, proof: &Groth16Proof) -> (r: bool)
    ensures
        r == proof_well_formed(vk, proof),
{
    if proof.a.len() != G1_POINT_LEN || proof.c.len() != G1_POINT_LEN || proof.b.len() != G2_POINT_LEN {
        return false;
    }
    if is_zero_bytes(&proof.a) || is_zero_bytes(&proof.b) || is_zero_bytes(&proof.c) {
        return false;
    }
    let mut i: usize = 0;
    while i < vk.ic.len()
        invariant
            0 <= i <= vk.ic@.len(),
            forall|k: int| 0 <= k < i ==> (#[trigger] vk.ic@[k])@.len() == G1_POINT_LEN,
        decreases vk.ic@.len() - i,
    {
        if vk.ic[i].len() != G1_POINT_LEN {
            return false;
        }
        i = i + 1;
    }
    true
}

/// The pairing check's own arity guard: one IC term per signal plus the
/// constant term. (Each signal is a field element by its type.)
pub fn verify_groth16_pairing(vk: &VerificationKey, public_signals: &Vec<[u8; 32]>) -> (r: bool)
    ensures
        r == (public_signals@.len() + 1 == vk.ic@.len()),
{
    public_signals.len() < vk.ic.len() && public_signals.len() + 1 == vk.ic.len()
}

/// The commitment binding `nullifier` to `public_signals`.
pub fn compute_attestation_commitment(nullifier: &[u8; 32], public_signals: &Vec<[u8; 32]>) -> (r: [u8; 32])
    requires
        public_signals@.len() < 2047,
    ensures
        r@ == commitment_of(*nullifier, public_signals@),
{
    let mut preimage: Vec<u8> = Vec::new();
    let mut k: usize = 0;
    while k < 32
        invariant
            0 <= k <= 32,
            preimage@ == nullifier@.take(k as int),
        decreases 32 - k,
    {
        preimage.push(nullifier[k]);
        k = k + 1;
    }
    proof {
        assert(nullifier@.take(32) == nullifier@);
        assert(signals_bytes(public_signals@.take(0)) == Seq::<u8>::empty());
        assert(preimage@ == nullifier@ + signals_bytes(public_signals@.take(0)));
    }
    let mut i: usize = 0;
    while i < public_signals.len()
        invariant
            0 <= i <= public_signals@.len(),
            public_signals@.len() < 2047,
            preimage@ == nullifier@ + signals_bytes(public_signals@.take(i as int)),
            preimage@.len() == 32 + 32 * i,
        decreases public_signals@.len() - i,
    {
        let signal = public_signals[i];
        let ghost base = preimage@;
        let mut j: usize = 0;
        while j < 32
            invariant
                0 <= j <= 32,
                preimage@ == base + signal@.take(j as int),
            decreases 32 - j,
        {
            preimage.push(signal[j]);
            j = j + 1;
        }
        proof {
            assert(signal@.take(32) == signal@);
            assert(public_signals@.take(i + 1).drop_last() == public_signals@.take(i as int));
            assert(public_signals@.take(i + 1).last() == signal);
            assert(nullifier@ + signals_bytes(public_signals@.take(i + 1))
                == nullifier@ + signals_bytes(public_signals@.take(i as int)) + signal@);
        }
        i = i + 1;
    }
    proof {
        assert(public_signals@.take(public_signals@.len() as int) == public_signals@);
    }
    sha256(preimage.as_slice())
}

/// The admin, the registered verification keys (one per circuit), and the
/// receipts of accepted attestations, whose nullifiers are the spent ones.
#[derive(Clone)]
pub struct ZkAttestationRegistry {
    pub admin: Option<Address>,
    pub vks: Vec<VerificationKey>,
    pub receipts: Vec<AttestationReceipt>,
    pub count: u64,
}

impl ZkAttestationRegistry {
    /// Keys are unique per circuit, and the count is the number of receipts.
    pub open spec fn wf(&self) -> bool {
        &&& forall|i: int, j: int| 0 <= i < j < self.vks@.len() ==>
            (#[trigger] self.vks@[i]).circuit_id != (#[trigger] self.vks@[j]).circuit_id
        &&& self.count == self.receipts@.len()
    }

    /// Whether `circuit` has a key.
    pub open spec fn has_vk(&self, circuit: CircuitId) -> bool {
        exists|i: int| 0 <= i < self.vks@.len() && (#[trigger] self.vks@[i]).circuit_id == circuit
    }

    /// Whether `nullifier` has been spent.
    pub open spec fn nullifier_used(&self, nullifier: [u8; 32]) -> bool {
        exists|i: int| 0 <= i < self.receipts@.len() && (#[trigger] self.receipts@[i]).nullifier@ == nullifier@
    }

    pub fn new() -> (r: Self)
        ensures
            r.wf(),
            r.admin is None,
            r.vks@.len() == 0,
            r.receipts@.len() == 0,
    {
        ZkAttestationRegistry { admin: None, vks: Vec::new(), receipts: Vec::new(), count: 0 }
    }

    /// Set the admin, once.
    pub fn initialize(&mut self, admin: Address) -> (r: Result<(), ContractError>)
        requires
            old(self).wf(),
        ensures
            final(self).wf(),
            r is Err <==> old(self).admin is Some,
            r is Err ==> r == Err::<(), ContractError>(ContractError::AlreadyInitialized) && *final(self) == *old(self),
            r is Ok ==> *final(self) == (ZkAttestationRegistry { admin: Some(admin), ..*old(self) }),
    {
        if self.admin.is_some() {
            return Err(ContractError::AlreadyInitialized);
        }
        self.admin = Some(admin);
        Ok(())
    }

    /// The admin.
    pub fn get_admin(&self) -> (r: Address)
        requires
            self.admin is Some,
        ensures
            r == self.admin->0,
    {
        match self.admin {
            Some(a) => a,
            None => 0,
        }
    }

    fn find_vk(&self, circuit: CircuitId) -> (r: Option<usize>)
        requires
            self.wf(),
        ensures
            r is None <==> !self.has_vk(circuit),
            r matches Some(i) ==> i < self.vks@.len() && self.vks@[i as int].circuit_id == circuit,
    {
        let mut i: usize = 0;
        while i < self.vks.len()
            invariant
                0 <= i <= self.vks@.len(),
                forall|k: int| 0 <= k < i ==> (#[trigger] self.vks@[k]).circuit_id != circuit,
            decreases self.vks@.len() - i,
        {
            if self.vks[i].circuit_id == circuit {
                return Some(i);
            }
            i = i + 1;
        }
        None
    }

    /// The admin registers (or replaces) the verification key of
    /// `circuit_id`; a key needs at least the constant IC term.
    pub fn register_verification_key(
        &mut self,
        caller: Address,
        circuit_id: CircuitId,
        curve: u64,
        alpha_beta: Vec<u8>,
        gamma: Vec<u8>,
        delta: Vec<u8>,
        ic: Vec<Vec<u8>>,
        now: u64,
    ) -> (r: Result<(), ContractError>)
        requires
            old(self).wf(),
        ensures
            final(self).wf(),
            old(self).admin is None ==> r == Err::<(), ContractError>(ContractError::NotInitialized),
            old(self).admin matches Some(a) && caller != a ==> r == Err::<(), ContractError>(ContractError::NotAdmin),
            old(self).admin == Some(caller) && ic@.len() == 0 ==> r == Err::<(), ContractError>(ContractError::InvalidVerificationKey),
            r is Ok <==> old(self).admin == Some(caller) && ic@.len() > 0,
            r is Err ==> *final(self) == *old(self),
            r is Ok ==> {
                &&& final(self).has_vk(circuit_id)
                &&& exists|i: int| 0 <= i < final(self).vks@.len() && {
                    let vk = #[trigger] final(self).vks@[i];
                    &&& vk.circuit_id == circuit_id && vk.curve == curve
                    &&& vk.alpha_beta@ == alpha_beta@ && vk.gamma@ == gamma@ && vk.delta@ == delta@
                    &&& vk.ic@ == ic@ && vk.registered_at == now && vk.registered_by == caller
                }
                &&& forall|c: CircuitId| c != circuit_id ==> (final(self).has_vk(c) <==> old(self).has_vk(c))
                &&& final(self).receipts == old(self).receipts
                &&& final(self).count == old(self).count
                &&& final(self).admin == old(self).admin
            },
    {
        match self.admin {
            None => return Err(ContractError::NotInitialized),
            Some(a) => {
                if caller != a {
                    return Err(ContractError::NotAdmin);
                }
            },
        }
        if ic.len() == 0 {
            return Err(ContractError::InvalidVerificationKey);
        }
        let vk = VerificationKey {
            circuit_id,
            curve,
            alpha_beta,
            gamma,
            delta,
            ic,
            registered_at: now,
            registered_by: caller,
        };
        match self.find_vk(circuit_id) {
            Some(i) => {
                self.vks.set(i, vk);
                proof {
                    assert(final(self).vks@[i as int].circuit_id == circuit_id);
                    assert forall|c: CircuitId| c != circuit_id implies (self.has_vk(c) <==> old(self).has_vk(c)) by {
                        if old(self).has_vk(c) {
                            let k = choose|k: int| 0 <= k < old(self).vks@.len() && (#[trigger] old(self).vks@[k]).circuit_id == c;
                            assert(self.vks@[k].circuit_id == c);
                        }
                        if self.has_vk(c) {
                            let k = choose|k: int| 0 <= k < self.vks@.len() && (#[trigger] self.vks@[k]).circuit_id == c;
                            assert(old(self).vks@[k].circuit_id == c);
                        }
                    };
                }
            },
            None => {
                self.vks.push(vk);
                proof {
                    let n = old(self).vks@.len() as int;
                    assert(self.vks@[n].circuit_id == circuit_id);
                    assert forall|c: CircuitId| c != circuit_id implies (self.has_vk(c) <==> old(self).has_vk(c)) by {
                        if old(self).has_vk(c) {
                            let k = choose|k: int| 0 <= k < old(self).vks@.len() && (#[trigger] old(self).vks@[k]).circuit_id == c;
                            assert(self.vks@[k].circuit_id == c);
                        }
                        if self.has_vk(c) {
                            let k = choose|k: int| 0 <= k < self.vks@.len() && (#[trigger] self.vks@[k]).circuit_id == c;
                            assert(old(self).vks@[k].circuit_id == c);
                        }
                    };
                }
            },
        }
        Ok(())
    }

    /// The key of `circuit_id`, if registered.
    pub fn get_verification_key(&self, circuit_id: CircuitId) -> (r: Option<&VerificationKey>)
        requires
            self.wf(),
        ensures
            r is None <==> !self.has_vk(circuit_id),
            r matches Some(vk) ==> vk.circuit_id == circuit_id && exists|i: int| 0 <= i < self.vks@.len() && self.vks@[i] == *vk,
    {
        match self.find_vk(circuit_id) {
            Some(i) => Some(&self.vks[i]),
            None => None,
        }
    }

    fn find_receipt(&self, nullifier: &[u8; 32]) -> (r: Option<usize>)
        ensures
            r is None <==> !self.nullifier_used(*nullifier),
            r matches Some(i) ==> i < self.receipts@.len() && self.receipts@[i as int].nullifier@ == nullifier@,
    {
        let mut i: usize = 0;
        while i < self.receipts.len()
            invariant
                0 <= i <= self.receipts@.len(),
                forall|k: int| 0 <= k < i ==> (#[trigger] self.receipts@[k]).nullifier@ != nullifier@,
            decreases self.receipts@.len() - i,
        {
            if bytes_eq(&self.receipts[i].nullifier, nullifier) {
                return Some(i);
            }
            i = i + 1;
        }
        None
    }

    /// Whether `nullifier` has been spent.
    pub fn is_nullifier_used(&self, nullifier: &[u8; 32]) -> (r: bool)
        ensures
            r == self.nullifier_used(*nullifier),
    {
        self.find_receipt(nullifier).is_some()
    }

    /// The receipt of the attestation that spent `nullifier`, if any.
    pub fn get_attestation(&self, nullifier: &[u8; 32]) -> (r: Option<AttestationReceipt>)
        ensures
            r is None <==> !self.nullifier_used(*nullifier),
            r matches Some(rc) ==> rc.nullifier@ == nullifier@
                && exists|i: int| 0 <= i < self.receipts@.len() && self.receipts@[i] == rc,
    {
        match self.find_receipt(nullifier) {
            Some(i) => Some(self.receipts[i]),
            None => None,
        }
    }

    /// Number of accepted attestations.
    pub fn attestation_count(&self) -> (r: u64)
        ensures
            r == self.count,
    {
        self.count
    }

    /// What verifying `att` gives, in the order the checks are made, given
    /// the key registered for its circuit.
    pub open spec fn verify_outcome(&self, att: &IdentityAttestation, vk: &VerificationKey) -> Result<(), AttestationError> {
        if att.public_signals@.len() > MAX_PUBLIC_SIGNALS {
            Err(AttestationError::PublicSignalMismatch)
        } else if att.public_signals@.len() + 1 != vk.ic@.len() {
            Err(AttestationError::PublicSignalMismatch)
        } else if !proof_well_formed(vk, &att.proof) {
            Err(AttestationError::MalformedProof)
        } else if commitment_of(att.nullifier, att.public_signals@) != att.attestation_commitment@ {
            Err(AttestationError::CommitmentMismatch)
        } else if self.nullifier_used(att.nullifier) {
            Err(AttestationError::NullifierAlreadyUsed)
        } else {
            Ok(())
        }
    }

    /// Verify `att` at `now`: on success its nullifier is spent and its
    /// receipt recorded; on failure nothing changes.
    pub fn verify_attestation(&mut self, att: &IdentityAttestation, now: u64) -> (r: Result<AttestationReceipt, AttestationError>)
        requires
            old(self).wf(),
            old(self).count < u64::MAX,
        ensures
            final(self).wf(),
            !old(self).has_vk(att.circuit_id) ==> r == Err::<AttestationReceipt, AttestationError>(AttestationError::CircuitNotRegistered),
            old(self).has_vk(att.circuit_id) ==> forall|i: int| 0 <= i < old(self).vks@.len()
                && (#[trigger] old(self).vks@[i]).circuit_id == att.circuit_id ==>
                match old(self).verify_outcome(att, &old(self).vks@[i]) {
                    Err(e) => r == Err::<AttestationReceipt, AttestationError>(e),
                    Ok(()) => r is Ok,
                },
            r is Err ==> *final(self) == *old(self),
            r matches Ok(rc) ==> {
                &&& rc.nullifier == att.nullifier && rc.subject == att.subject
                &&& rc.circuit_id == att.circuit_id && rc.verified_at == now
                &&& final(self).receipts@ == old(self).receipts@.push(rc)
                &&& final(self).count == old(self).count + 1
                &&& final(self).vks == old(self).vks
                &&& final(self).admin == old(self).admin
                &&& !old(self).nullifier_used(att.nullifier)
                &&& final(self).nullifier_used(att.nullifier)
            },
    {
        let idx = match self.find_vk(att.circuit_id) {
            Some(i) => i,
            None => return Err(AttestationError::CircuitNotRegistered),
        };
        proof {
            assert forall|i: int| 0 <= i < self.vks@.len() && (#[trigger] self.vks@[i]).circuit_id == att.circuit_id
                implies i == idx by {
                if i != idx {
                    if i < idx {
                        assert(self.vks@[i].circuit_id != self.vks@[idx as int].circuit_id);
                    } else {
                        assert(self.vks@[idx as int].circuit_id != self.vks@[i].circuit_id);
                    }
                }
            };
        }
        let vk = &self.vks[idx];
        if att.public_signals.len() > MAX_PUBLIC_SIGNALS {
            return Err(AttestationError::PublicSignalMismatch);
        }
        if att.public_signals.len() + 1 != vk.ic.len() {
            return Err(AttestationError::PublicSignalMismatch);
        }
        if !validate_proof_structure(vk, &att.proof) {
            return Err(AttestationError::MalformedProof);
        }
        let expected = compute_attestation_commitment(&att.nullifier, &att.public_signals);
        if !bytes_eq(&expected, &att.attestation_commitment) {
            return Err(AttestationError::CommitmentMismatch);
        }
        if self.is_nullifier_used(&att.nullifier) {
            return Err(AttestationError::NullifierAlreadyUsed);
        }
        if !verify_groth16_pairing(vk, &att.public_signals) {
            return Err(AttestationError::PairingCheckFailed);
        }
        let receipt = self.record_attestation(att, now);
        proof {
            let n = old(self).receipts@.len() as int;
            assert(self.receipts@[n] == receipt);
            assert(self.receipts@[n].nullifier@ == att.nullifier@);
        }
        Ok(receipt)
    }

    /// Record the receipt of an accepted attestation.
    fn record_attestation(&mut self, att: &IdentityAttestation, now: u64) -> (r: AttestationReceipt)
        requires
            old(self).wf(),
            old(self).count < u64::MAX,
        ensures
            final(self).wf(),
            r.nullifier == att.nullifier && r.subject == att.subject,
            r.circuit_id == att.circuit_id && r.verified_at == now,
            final(self).receipts@ == old(self).receipts@.push(r),
            final(self).count == old(self).count + 1,
            final(self).vks == old(self).vks,
            final(self).admin == old(self).admin,
    {
        let receipt = AttestationReceipt {
            nullifier: att.nullifier,
            subject: att.subject,
            circuit_id: att.circuit_id,
            verified_at: now,
        };
        self.receipts.push(receipt);
        self.count = self.count + 1;
        receipt
    }
}

} // verus!
