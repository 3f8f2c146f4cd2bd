//! Brute-force search for a nonce whose digest carries a required prefix.

use crate::utils::generate_hash;
use crate::utils::generate_nonce;
use crate::utils::is_nonce_char;
use crate::utils::spec_generate_hash;
use vstd::prelude::*;
use vstd::string::*;

verus! {

/// Every nonce the search draws has this many characters.
pub const NONCE_LENGTH: usize = 48;

/// A server-issued unit of work: an opaque payload and the prefix that the
/// digest of a solution must start with.
#[derive(Debug)]
pub struct Challenge {
    pub payload: String,
    pub requirement: String,
}

/// A solution: a nonce together with the digest of the payload followed by
/// that nonce.
#[derive(Debug)]
pub struct Candidate {
    pub nonce: String,
    pub digest: String,
}

/// Whether a nonce and its digest solve the given payload and requirement.
pub open spec fn valid_candidate(
    payload: Seq<char>,
    requirement: Seq<char>,
    nonce: Seq<char>,
    digest: Seq<char>,
) -> bool {
    &&& digest == spec_generate_hash(payload + nonce)
    &&& requirement.is_prefix_of(digest)
    &&& nonce.len() == NONCE_LENGTH
    &&& forall|i: int| 0 <= i < nonce.len() ==> is_nonce_char(#[trigger] nonce[i])
}

/// Whether one string starts with another, character by character.
pub fn str_starts_with(s: &str, prefix: &str) -> (b: bool)
    ensures
        b == prefix@.is_prefix_of(s@),
{
    let n = s.unicode_len();
    let m = prefix.unicode_len();
    if m > n {
        return false;
    }
    let mut i: usize = 0;
    while i < m
        invariant
            m == prefix@.len(),
            n == s@.len(),
            m <= n,
            i <= m,
            forall|j: int| 0 <= j < i ==> s@[j] == prefix@[j],
        decreases m - i,
    {
        let cs = s.get_char(i);
        let cp = prefix.get_char(i);
        if cs != cp {
            proof {
                if prefix@.is_prefix_of(s@) {
                    assert(prefix@[i as int] == s@.subrange(0, m as int)[i as int]);
                }
            }
            return false;
        }
        i = i + 1;
    }
    proof {
        assert(prefix@ =~= s@.subrange(0, m as int));
    }
    true
}

/// Searches for a candidate by drawing fresh random nonces, at most
/// `attempts` of them. Any candidate returned is valid for the inputs; an
/// empty requirement is met by the very first draw.
pub fn solve(payload: &str, requirement: &str, attempts: u64) -> (r: Option<Candidate>)
    ensures
        r matches Some(c) ==> valid_candidate(payload@, requirement@, c.nonce@, c.digest@),
        requirement@.len() == 0 && attempts >= 1 ==> r is Some,
{
    let mut i: u64 = 0;
    while i < attempts
        invariant
            i <= attempts,
            requirement@.len() == 0 ==> i == 0,
        decreases attempts - i,
    {
        let nonce = generate_nonce(NONCE_LENGTH);
        let data = String::from_str(payload).concat(nonce.as_str());
        let digest = generate_hash(data.as_str());
        if str_starts_with(digest.as_str(), requirement) {
            return Some(Candidate { nonce, digest });
        }
        proof {
            assert(requirement@.len() != 0) by {
                if requirement@.len() == 0 {
                    assert(requirement@ =~= digest@.subrange(0, 0));
                }
            }
        }
        i = i + 1;
    }
    None
}

} // verus!
