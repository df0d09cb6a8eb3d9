//! The binding checks of the PLONK verifier: the verifying-key tag that a proof
//! carries, the program hash given in hex, the public-input hash, and the two
//! scalars handed to the algebraic check in their fixed order.
use vstd::prelude::*;
use vstd::slice::{slice_subrange, slice_to_vec};
use vstd::string::StrSliceExecFns;
use substrate_bn::Fr;
use sha2::{Digest, Sha256};

verus! {

#[verifier::external_type_specification]
#[verifier::external_body]
pub struct ExFr(Fr);

/// SHA-256 of `data`.
pub uninterp spec fn sha256_of(data: Seq<u8>) -> Seq<u8>;

/// Relies on sha2's `Sha256::digest`: the 32-byte SHA-256 digest of the input.
#[verifier::external_body]
fn sha256(data: &[u8]) -> (r: [u8; 32])
    ensures
        r@ == sha256_of(data@),
{
    Sha256::digest(data).into()
}

/// The order of the scalar field of BN254, in which public inputs live.
pub open spec fn fr_modulus() -> int {
    (0x30644e72e131a029b85045b68181585d * 0x1_0000_0000_0000_0000 * 0x1_0000_0000_0000_0000
        + 0x2833e84879b9709143e1f593f0000001) as int
}

/// The integer that `s` spells in big-endian order.
pub open spec fn be_value(s: Seq<u8>) -> int
    decreases s.len(),
{
    if s.len() == 0 {
        0
    } else {
        be_value(s.drop_last()) * 256 + s.last() as int
    }
}

/// Relies on substrate-bn's `U256::from_slice`, which reads 32 bytes as a
/// big-endian integer, and `Fr::new`, which gives `None` exactly when that
/// integer is not below the scalar field's modulus.
#[verifier::external_body]
fn scalar_from_be_bytes(bytes: &[u8; 32]) -> (r: Option<Fr>)
    ensures
        r is Some <==> be_value(bytes@) < fr_modulus(),
{
    substrate_bn::arith::U256::from_slice(bytes).ok().and_then(Fr::new)
}


/// Why a proof was not accepted.
#[derive(Clone, Copy, Debug, PartialEq, Eq)]
pub enum PlonkError {
    /// The proof's first four bytes are not the verifying key's tag.
    PlonkVkeyHashMismatch,
    /// The program hash is not `0x` followed by 64 hex digits.
    InvalidProgramVkeyHash,
    /// The proof bytes do not decode to a proof.
    InvalidProof,
    /// The verifying-key bytes do not decode to a verifying key.
    InvalidVerifyingKey,
    /// A public input is not below the scalar field's modulus.
    BeyondTheModulus,
    /// The algebraic check rejected the proof.
    VerificationFailed,
}

/// What the algebraic stage (proof and verifying-key decoding, then the pairing
/// check) reports for a statement.
#[derive(Clone, Copy, Debug, PartialEq, Eq)]
pub enum AlgebraicOutcome {
    MalformedProof,
    MalformedVerifyingKey,
    Rejected,
    Accepted,
}

/// What remains to be checked algebraically once the binding checks passed: the
/// proof without its tag, the verifying key, and the public inputs in their fixed
/// order, the program hash first and the public-input hash second.
#[derive(Debug)]
pub struct PlonkStatement {
    pub proof: Vec<u8>,
    pub verifying_key: Vec<u8>,
    pub program_hash: [u8; 32],
    pub public_inputs_hash: [u8; 32],
    pub public_inputs: [Fr; 2],
}

/// The value of a hex digit, or -1 for any other character.
pub open spec fn hex_value(c: char) -> int {
    let u = c as u32;
    if '0' as u32 <= u && u <= '9' as u32 {
        u - '0' as u32
    } else if 'a' as u32 <= u && u <= 'f' as u32 {
        u - 'a' as u32 + 10
    } else if 'A' as u32 <= u && u <= 'F' as u32 {
        u - 'A' as u32 + 10
    } else {
        -1
    }
}

/// `0x` followed by 64 hex digits.
pub open spec fn vkey_hash_well_formed(s: Seq<char>) -> bool {
    &&& s.len() == 66
    &&& s[0] == '0'
    &&& s[1] == 'x'
    &&& forall|i: int| 2 <= i < 66 ==> hex_value(#[trigger] s[i]) >= 0
}

/// The 32 bytes that a well-formed program hash spells, two digits each, high
/// digit first.
pub open spec fn vkey_hash_bytes(s: Seq<char>) -> Seq<u8> {
    Seq::new(32, |i: int| (16 * hex_value(s[2 + 2 * i]) + hex_value(s[3 + 2 * i])) as u8)
}

/// The hash that binds the public inputs: SHA-256 with the top three bits of its
/// first byte cleared, so that it is below the scalar field's modulus.
pub open spec fn public_inputs_hash_of(data: Seq<u8>) -> Seq<u8> {
    sha256_of(data).update(0, sha256_of(data)[0] & 0x1f)
}

/// The proof's first four bytes are the first four bytes of SHA-256 of the
/// verifying key.
pub open spec fn tag_matches(proof: Seq<u8>, vk: Seq<u8>) -> bool {
    proof.len() >= 4 && proof.subrange(0, 4) == sha256_of(vk).subrange(0, 4)
}

/// Both public inputs are below the scalar field's modulus.
pub open spec fn scalars_in_range(program_hash: Seq<u8>, public_inputs_hash: Seq<u8>) -> bool {
    be_value(program_hash) < fr_modulus() && be_value(public_inputs_hash) < fr_modulus()
}

/// What `verify_bytes` returns on its inputs.
pub open spec fn verify_bytes_result(
    proof: Seq<u8>,
    program_hash: Seq<u8>,
    public_inputs_hash: Seq<u8>,
    vk: Seq<u8>,
    r: Result<PlonkStatement, PlonkError>,
) -> bool {
    match r {
        Ok(st) => {
            &&& scalars_in_range(program_hash, public_inputs_hash)
            &&& st.proof@ == proof
            &&& st.verifying_key@ == vk
            &&& st.program_hash@ == program_hash
            &&& st.public_inputs_hash@ == public_inputs_hash
        },
        Err(e) => !scalars_in_range(program_hash, public_inputs_hash) && e
            == PlonkError::BeyondTheModulus,
    }
}

/// The value of one hex digit.
fn hex_digit(c: char) -> (r: Option<u8>)
    ensures
        match r {
            Some(v) => v < 16 && hex_value(c) == v as int,
            None => hex_value(c) < 0,
        },
{
    let u = c as u32;
    if '0' as u32 <= u && u <= '9' as u32 {
        Some((u - '0' as u32) as u8)
    } else if 'a' as u32 <= u && u <= 'f' as u32 {
        Some((u - 'a' as u32 + 10) as u8)
    } else if 'A' as u32 <= u && u <= 'F' as u32 {
        Some((u - 'A' as u32 + 10) as u8)
    } else {
        None
    }
}

/// Decodes a program hash written as `0x` and 64 hex digits.
pub fn decode_sp1_vkey_hash(s: &str) -> (r: Result<[u8; 32], PlonkError>)
    ensures
        match r {
            Ok(b) => vkey_hash_well_formed(s@) && b@ == vkey_hash_bytes(s@),
            Err(e) => !vkey_hash_well_formed(s@) && e == PlonkError::InvalidProgramVkeyHash,
        },
{
    let n = s.unicode_len();
    if n != 66 || s.get_char(0) != '0' || s.get_char(1) != 'x' {
        return Err(PlonkError::InvalidProgramVkeyHash);
    }
    let mut out = [0u8; 32];
    let mut i: usize = 0;
    while i < 32
        invariant
            i <= 32,
            s@.len() == 66,
            s@[0] == '0',
            s@[1] == 'x',
            forall|j: int| 2 <= j < 2 + 2 * i ==> hex_value(#[trigger] s@[j]) >= 0,
            forall|k: int| 0 <= k < i ==> out@[k] == #[trigger] vkey_hash_bytes(s@)[k],
        decreases 32 - i,
    {
        let hi = hex_digit(s.get_char(2 + 2 * i));
        let lo = hex_digit(s.get_char(3 + 2 * i));
        match (hi, lo) {
            (Some(h), Some(l)) => {
                out[i] = h * 16 + l;
            },
            _ => {
                assert(!vkey_hash_well_formed(s@)) by {
                    if hi is None {
                        assert(hex_value(s@[2 + 2 * i]) < 0);
                    } else {
                        assert(hex_value(s@[3 + 2 * i]) < 0);
                    }
                }
                return Err(PlonkError::InvalidProgramVkeyHash);
            },
        }
        i = i + 1;
    }
    assert(out@ =~= vkey_hash_bytes(s@));
    Ok(out)
}

/// The hash that binds the public inputs of a proof.
pub fn hash_public_inputs(public_inputs: &[u8]) -> (r: [u8; 32])
    ensures
        r@ == public_inputs_hash_of(public_inputs@),
{
    let mut h = sha256(public_inputs);
    h[0] = h[0] & 0x1f;
    assert(h@ =~= public_inputs_hash_of(public_inputs@));
    h
}

/// A verifier for PLONK proofs.
#[derive(Clone, Copy, Debug)]
pub struct PlonkVerifier;

impl PlonkVerifier {
    /// Checks a proof's binding to `plonk_vk`, decodes the program hash and hashes
    /// the public inputs, then hands on to `verify_bytes`. The proof must start
    /// with the first four bytes of SHA-256 of the verifying key.
    pub fn verify(
        proof: &[u8],
        sp1_public_inputs: &[u8],
        sp1_vkey_hash: &str,
        plonk_vk: &[u8],
    ) -> (r: Result<PlonkStatement, PlonkError>)
        ensures
            !tag_matches(proof@, plonk_vk@) ==> r == Err::<PlonkStatement, PlonkError>(
                PlonkError::PlonkVkeyHashMismatch,
            ),
            tag_matches(proof@, plonk_vk@) && !vkey_hash_well_formed(sp1_vkey_hash@) ==> r
                == Err::<PlonkStatement, PlonkError>(PlonkError::InvalidProgramVkeyHash),
            tag_matches(proof@, plonk_vk@) && vkey_hash_well_formed(sp1_vkey_hash@)
                ==> verify_bytes_result(
                proof@.subrange(4, proof@.len() as int),
                vkey_hash_bytes(sp1_vkey_hash@),
                public_inputs_hash_of(sp1_public_inputs@),
                plonk_vk@,
                r,
            ),
    {
        let plonk_vk_hash = sha256(plonk_vk);
        if proof.len() < 4 || proof[0] != plonk_vk_hash[0] || proof[1] != plonk_vk_hash[1]
            || proof[2] != plonk_vk_hash[2] || proof[3] != plonk_vk_hash[3] {
            proof {
                if proof@.len() >= 4 {
                    let a = proof@.subrange(0, 4);
                    let b = sha256_of(plonk_vk@).subrange(0, 4);
                    assert(a[0] != b[0] || a[1] != b[1] || a[2] != b[2] || a[3] != b[3]);
                }
            }
            return Err(PlonkError::PlonkVkeyHashMismatch);
        }
        assert(proof@.subrange(0, 4) =~= sha256_of(plonk_vk@).subrange(0, 4));
        let sp1_vkey_hash = match decode_sp1_vkey_hash(sp1_vkey_hash) {
            Ok(h) => h,
            Err(e) => {
                return Err(e);
            },
        };
        let public_inputs_hash = hash_public_inputs(sp1_public_inputs);
        Self::verify_bytes(
            slice_subrange(proof, 4, proof.len()),
            &sp1_vkey_hash,
            &public_inputs_hash,
            plonk_vk,
        )
    }

    /// Reads the program hash and the public-input hash as scalars, each of which
    /// must be below the scalar field's modulus, and returns the statement to
    /// check algebraically, with the program hash as the first public input.
    pub fn verify_bytes(
        proof: &[u8],
        sp1_vkey_hash: &[u8; 32],
        public_inputs_hash: &[u8; 32],
        plonk_vk: &[u8],
    ) -> (r: Result<PlonkStatement, PlonkError>)
        ensures
            verify_bytes_result(proof@, sp1_vkey_hash@, public_inputs_hash@, plonk_vk@, r),
    {
        let program = scalar_from_be_bytes(sp1_vkey_hash);
        let inputs = scalar_from_be_bytes(public_inputs_hash);
        match (program, inputs) {
            (Some(p), Some(i)) => Ok(
                PlonkStatement {
                    proof: slice_to_vec(proof),
                    verifying_key: slice_to_vec(plonk_vk),
                    program_hash: *sp1_vkey_hash,
                    public_inputs_hash: *public_inputs_hash,
                    public_inputs: [p, i],
                },
            ),
            _ => Err(PlonkError::BeyondTheModulus),
        }
    }

    /// The verdict on a statement, from what the algebraic stage reported: the
    /// proof is accepted only when the check accepted it, and a rejection carries
    /// no detail.
    pub fn conclude(outcome: AlgebraicOutcome) -> (r: Result<(), PlonkError>)
        ensures
            r is Ok <==> outcome == AlgebraicOutcome::Accepted,
            outcome == AlgebraicOutcome::MalformedProof ==> r == Err::<(), PlonkError>(
                PlonkError::InvalidProof,
            ),
            outcome == AlgebraicOutcome::MalformedVerifyingKey ==> r == Err::<(), PlonkError>(
                PlonkError::InvalidVerifyingKey,
            ),
            outcome == AlgebraicOutcome::Rejected ==> r == Err::<(), PlonkError>(
                PlonkError::VerificationFailed,
            ),
    {
        match outcome {
            AlgebraicOutcome::MalformedProof => Err(PlonkError::InvalidProof),
            AlgebraicOutcome::MalformedVerifyingKey => Err(PlonkError::InvalidVerifyingKey),
            AlgebraicOutcome::Rejected => Err(PlonkError::VerificationFailed),
            AlgebraicOutcome::Accepted => Ok(()),
        }
    }
}

/// Changing any one of the first four bytes of a proof whose tag matches a
/// verifying key makes the tag mismatch, whatever the rest of the proof holds.
pub proof fn lemma_flipped_tag_byte_rejected(proof: Seq<u8>, vk: Seq<u8>, i: int, b: u8)
    requires
        tag_matches(proof, vk),
        0 <= i < 4,
        b != proof[i],
    ensures
        !tag_matches(proof.update(i, b), vk),
{
    assert(proof.update(i, b).subrange(0, 4)[i] != proof.subrange(0, 4)[i]);
}

/// `verify_bytes` depends on its inputs alone: two calls on the same bytes both
/// accept, with the same statement bytes, or both fail with the same error.
pub proof fn lemma_verify_bytes_deterministic(
    proof: Seq<u8>,
    program_hash: Seq<u8>,
    public_inputs_hash: Seq<u8>,
    vk: Seq<u8>,
    r1: Result<PlonkStatement, PlonkError>,
    r2: Result<PlonkStatement, PlonkError>,
)
    requires
        verify_bytes_result(proof, program_hash, public_inputs_hash, vk, r1),
        verify_bytes_result(proof, program_hash, public_inputs_hash, vk, r2),
    ensures
        r1 is Ok <==> r2 is Ok,
        r1 is Err ==> r1 == r2,
        r1 is Ok ==> {
            &&& r1->Ok_0.proof@ == r2->Ok_0.proof@
            &&& r1->Ok_0.verifying_key@ == r2->Ok_0.verifying_key@
            &&& r1->Ok_0.program_hash == r2->Ok_0.program_hash
            &&& r1->Ok_0.public_inputs_hash == r2->Ok_0.public_inputs_hash
        },
{
    if r1 is Ok && r2 is Ok {
        assert(r1->Ok_0.program_hash@ =~= r2->Ok_0.program_hash@);
        assert(r1->Ok_0.public_inputs_hash@ =~= r2->Ok_0.public_inputs_hash@);
    }
}

} // verus!
