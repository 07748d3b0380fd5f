//! Authorization checker: inspects the companion signature-verification
//! instruction of the current transaction and confirms it attests to the
//! expected message and the expected operator's key. No cryptography runs
//! here; the platform's verifier already checked the signature, and this
//! module only checks presence and content.

use vstd::prelude::*;
use crate::errors::VaultError;
use crate::identity::Identity;

verus! {

/// A sibling instruction of the current transaction, as the host ledger
/// reports it: the program it targets and its raw payload.
#[derive(Debug)]
pub struct CompanionInstruction {
    pub program_id: Identity,
    pub data: Vec<u8>,
}

/// Whether `needle` occurs as a contiguous run inside `haystack`.
pub open spec fn contains_seq(haystack: Seq<u8>, needle: Seq<u8>) -> bool {
    exists|i: int|
        0 <= i && i + needle.len() <= haystack.len()
            && #[trigger] haystack.subrange(i, i + needle.len() as int) == needle
}

/// What the checker concluded from a well-targeted attestation.
#[derive(Clone, Copy, Debug, PartialEq, Eq, Structural)]
pub enum Authorization {
    /// The payload names the vault's operator: the withdrawal may proceed.
    Approved,
    /// The payload does not name the operator: the withdrawal is silently
    /// skipped, with no funds moved and no error raised.
    OperatorAbsent,
}

/// The checker's verdict on a companion instruction: which error it raises,
/// or whether the withdrawal proceeds or is silently skipped.
pub open spec fn spec_authorize(
    ix_program: Seq<u8>,
    ix_data: Seq<u8>,
    verifier: Seq<u8>,
    message: Seq<u8>,
    operator: Seq<u8>,
) -> Result<Authorization, VaultError> {
    if ix_program != verifier {
        Err(VaultError::ProgramMissing)
    } else if !contains_seq(ix_data, message) {
        Err(VaultError::SignedMessageMissing)
    } else if !contains_seq(ix_data, operator) {
        Ok(Authorization::OperatorAbsent)
    } else {
        Ok(Authorization::Approved)
    }
}

/// Whether `needle` occurs in `haystack` starting at `at`.
fn matches_at(haystack: &Vec<u8>, needle: &Vec<u8>, at: usize) -> (r: bool)
    requires
        at + needle@.len() <= haystack@.len(),
    ensures
        r <==> haystack@.subrange(at as int, at + needle@.len()) == needle@,
{
    let n = needle.len();
    let h = haystack.len();
    let mut k: usize = 0;
    while k < n
        invariant
            n == needle@.len(),
            h == haystack@.len(),
            at + n <= h,
            k <= n,
            forall|j: int| 0 <= j < k ==> haystack@[at + j] == needle@[j],
        decreases n - k,
    {
        if haystack[at + k] != needle[k] {
            proof {
                assert(haystack@.subrange(at as int, at + needle@.len())[k as int]
                    != needle@[k as int]);
            }
            return false;
        }
        k += 1;
    }
    proof {
        assert(haystack@.subrange(at as int, at + needle@.len()) =~= needle@);
    }
    true
}

/// Whether `needle` occurs as a contiguous byte run anywhere in `haystack`.
pub fn contains_subrange(haystack: &Vec<u8>, needle: &Vec<u8>) -> (r: bool)
    ensures
        r <==> contains_seq(haystack@, needle@),
{
    let h = haystack.len();
    let n = needle.len();
    if n > h {
        return false;
    }
    if n == 0 {
        proof {
            assert(haystack@.subrange(0, 0 + needle@.len() as int) =~= needle@);
            assert(contains_seq(haystack@, needle@)) by {
                assert(0 <= 0int && 0 + needle@.len() <= haystack@.len()
                    && haystack@.subrange(0, 0 + needle@.len() as int) == needle@);
            }
        }
        return true;
    }
    let mut i: usize = 0;
    while i <= h - n
        invariant
            h == haystack@.len(),
            n == needle@.len(),
            1 <= n <= h,
            i <= h - n + 1,
            forall|j: int|
                0 <= j < i
                    ==> #[trigger] haystack@.subrange(j, j + needle@.len()) != needle@,
        decreases h - n - i + 1,
    {
        if matches_at(haystack, needle, i) {
            proof {
                assert(contains_seq(haystack@, needle@)) by {
                    assert(0 <= i as int && i as int + needle@.len() <= haystack@.len()
                        && haystack@.subrange(i as int, i as int + needle@.len())
                            == needle@);
                }
            }
            return true;
        }
        i += 1;
    }
    false
}

/// Checks the companion instruction for an operator-signed approval of the
/// expected message: it must target the expected verifier program, carry the
/// message bytes, and carry the operator's key bytes.
pub fn check_authorization(
    instruction: &CompanionInstruction,
    verifier: &Identity,
    signed_message: &Vec<u8>,
    operator: &Identity,
) -> (r: Result<Authorization, VaultError>)
    ensures
        r == spec_authorize(
            instruction.program_id@,
            instruction.data@,
            verifier@,
            signed_message@,
            operator@,
        ),
{
    if !instruction.program_id.equals(verifier) {
        return Err(VaultError::ProgramMissing);
    }
    if !contains_subrange(&instruction.data, signed_message) {
        return Err(VaultError::SignedMessageMissing);
    }
    let operator_bytes = operator.to_bytes();
    if !contains_subrange(&instruction.data, &operator_bytes) {
        return Ok(Authorization::OperatorAbsent);
    }
    Ok(Authorization::Approved)
}

} // verus!
