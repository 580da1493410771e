//! SHA-256 Merkle proofs over 32-byte nodes, with siblings ordered
//! lexicographically before hashing (the sorted-pair convention).

use vstd::prelude::*;

verus! {

/// Largest input, in bytes, hashed here. The host meters every call
/// against its budget and traps when it runs out; 64 KiB of hashing stays
/// well within a default host's budget, so no admitted input traps.
pub const MAX_HASH_INPUT: usize = 65536;

/// The SHA-256 digest of `data`, as the ledger host computes it.
pub uninterp spec fn sha256_digest(data: Seq<u8>) -> Seq<u8>;

/// SHA-256 of `data`, computed by the Soroban host (`Crypto::sha256`).
/// The contract claims only that the digest is the host's SHA-256 of exactly
/// these bytes; the value itself is named, not stated.
#[verifier::external_body]
pub(crate) fn sha256(data: &[u8]) -> (r: [u8; 32])
    requires
        data@.len() <= MAX_HASH_INPUT,
    ensures
        r@ == sha256_digest(data@),
{
    let env = soroban_sdk::Env::default();
    let bytes = soroban_sdk::Bytes::from_slice(&env, data);
    env.crypto().sha256(&bytes).to_array()
}

/// Lexicographic `<=` on byte strings of equal length.
pub open spec fn lex_le(a: Seq<u8>, b: Seq<u8>) -> bool
    decreases a.len(),
{
    if a.len() == 0 || b.len() == 0 {
        true
    } else if a[0] != b[0] {
        a[0] < b[0]
    } else {
        lex_le(a.drop_first(), b.drop_first())
    }
}

/// Lexicographic comparison of two 32-byte nodes.
pub fn bytes_le(a: &[u8; 32], b: &[u8; 32]) -> (r: bool)
    ensures
        r == lex_le(a@, b@),
{
    assert(a@.skip(0) =~= a@);
    assert(b@.skip(0) =~= b@);
    let mut i: usize = 0;
    while i < 32
        invariant
            0 <= i <= 32,
            a@.len() == 32,
            b@.len() == 32,
            lex_le(a@, b@) == lex_le(a@.skip(i as int), b@.skip(i as int)),
        decreases 32 - i,
    {
        proof {
            let sa = a@.skip(i as int);
            let sb = b@.skip(i as int);
            assert(sa.drop_first() =~= a@.skip(i + 1));
            assert(sb.drop_first() =~= b@.skip(i + 1));
            assert(sa[0] == a@[i as int]);
            assert(sb[0] == b@[i as int]);
        }
        if a[i] != b[i] {
            return a[i] < b[i];
        }
        i = i + 1;
    }
    proof {
        assert(a@.skip(32).len() == 0);
    }
    true
}

/// Equality of two 32-byte nodes.
pub fn bytes_eq(a: &[u8; 32], b: &[u8; 32]) -> (r: bool)
    ensures
        r == (a@ == b@),
{
    let mut i: usize = 0;
    while i < 32
        invariant
            0 <= i <= 32,
            a@.len() == 32,
            b@.len() == 32,
            forall|k: int| 0 <= k < i ==> a@[k] == b@[k],
        decreases 32 - i,
    {
        if a[i] != b[i] {
            return false;
        }
        i = i + 1;
    }
    assert(a@ =~= b@);
    true
}

/// `x` followed by `y`.
pub fn concat_nodes(x: &[u8; 32], y: &[u8; 32]) -> (r: Vec<u8>)
    ensures
        r@ == x@ + y@,
{
    let mut out: Vec<u8> = Vec::new();
    let mut i: usize = 0;
    while i < 32
        invariant
            0 <= i <= 32,
            x@.len() == 32,
            out@ == x@.take(i as int),
        decreases 32 - i,
    {
        out.push(x[i]);
        i = i + 1;
    }
    let mut j: usize = 0;
    while j < 32
        invariant
            0 <= j <= 32,
            x@.len() == 32,
            y@.len() == 32,
            out@ == x@ + y@.take(j as int),
        decreases 32 - j,
    {
        out.push(y[j]);
        j = j + 1;
    }
    assert(x@.take(32) =~= x@);
    assert(y@.take(32) =~= y@);
    out
}

/// Views of a list of nodes.
pub open spec fn node_views(nodes: Seq<[u8; 32]>) -> Seq<Seq<u8>> {
    nodes.map_values(|n: [u8; 32]| n@)
}

/// Parent of a node and its sibling: the hash of the smaller one followed by
/// the larger one.
pub open spec fn merkle_parent(node: Seq<u8>, sibling: Seq<u8>) -> Seq<u8> {
    if lex_le(node, sibling) {
        sha256_digest(node + sibling)
    } else {
        sha256_digest(sibling + node)
    }
}

/// The root reached from `node` by climbing through `proof`.
pub open spec fn merkle_climb(node: Seq<u8>, proof: Seq<Seq<u8>>) -> Seq<u8>
    decreases proof.len(),
{
    if proof.len() == 0 {
        node
    } else {
        merkle_climb(merkle_parent(node, proof[0]), proof.drop_first())
    }
}

/// Whether `proof` leads from `leaf` to `root`.
pub fn verify_merkle_proof(root: &[u8; 32], leaf: &[u8; 32], proof: &Vec<[u8; 32]>) -> (r: bool)
    ensures
        r == (merkle_climb(leaf@, node_views(proof@)) == root@),
{
    let ghost views = node_views(proof@);
    let mut computed: [u8; 32] = *leaf;
    let mut i: usize = 0;
    proof {
        assert(views.skip(0) =~= views);
    }
    while i < proof.len()
        invariant
            0 <= i <= proof@.len(),
            views == node_views(proof@),
            merkle_climb(leaf@, views) == merkle_climb(computed@, views.skip(i as int)),
        decreases proof@.len() - i,
    {
        let element = proof[i];
        let data = if bytes_le(&computed, &element) {
            concat_nodes(&computed, &element)
        } else {
            concat_nodes(&element, &computed)
        };
        let next = sha256(data.as_slice());
        proof {
            let rest = views.skip(i as int);
            assert(rest[0] == element@);
            assert(rest.drop_first() =~= views.skip(i + 1));
            assert(next@ == merkle_parent(computed@, element@));
        }
        computed = next;
        i = i + 1;
    }
    proof {
        assert(views.skip(i as int).len() == 0);
    }
    bytes_eq(&computed, root)
}

} // verus!
