//! Classification of a completion by the hexadecimal Keccak-256 digest of
//! the fragment followed by the completion.
use vstd::prelude::*;
use vstd::utf8::encode_utf8;

use crate::digest::{hex_ascii, hex_encode, keccak256, keccak256_of};
use crate::MEMEkError;

verus! {

/// Reward tier of an accepted completion.
#[derive(Debug, Clone, Copy, PartialEq, Eq, Structural)]
pub enum Tier {
    Super,
    Normal,
}

/// Reward of the super tier, in whole units.
pub const SUPER_REWARD: u64 = 65000;

/// Reward of the normal tier, in whole units.
pub const NORMAL_REWARD: u64 = 650;

/// Base units per whole unit of the issued token (nine decimals).
pub const ISSUANCE_SCALE: u64 = 1_000_000_000;

/// Length of the super pattern.
pub const SUPER_PATTERN_LEN: usize = 14;

/// Whether `needle` occurs in `hay` starting at position `i`.
pub open spec fn occurs_at(hay: Seq<u8>, needle: Seq<u8>, i: int) -> bool {
    0 <= i && i + needle.len() <= hay.len() && hay.subrange(i, i + needle.len()) == needle
}

/// Whether `needle` occurs anywhere in `hay`.
pub open spec fn contains(hay: Seq<u8>, needle: Seq<u8>) -> bool {
    exists|i: int| occurs_at(hay, needle, i)
}

/// ASCII "73697866697665": "sixfive" rendered as hexadecimal.
pub open spec fn super_pattern() -> Seq<u8> {
    seq![55u8, 51, 54, 57, 55, 56, 54, 54, 54, 57, 55, 54, 54, 53]
}

/// ASCII "65".
pub open spec fn normal_pattern() -> Seq<u8> {
    seq![54u8, 53]
}

/// The tier that a hexadecimal digest earns, the super pattern taking priority.
pub open spec fn tier_of(hex: Seq<u8>) -> Option<Tier> {
    if contains(hex, super_pattern()) {
        Some(Tier::Super)
    } else if contains(hex, normal_pattern()) {
        Some(Tier::Normal)
    } else {
        None
    }
}

pub open spec fn tier_reward(t: Tier) -> u64 {
    match t {
        Tier::Super => SUPER_REWARD,
        Tier::Normal => NORMAL_REWARD,
    }
}

/// The bytes that are hashed: the fragment's UTF-8 bytes, then the completion's.
pub open spec fn completion_preimage(fragment: Seq<char>, completion: Seq<char>) -> Seq<u8> {
    encode_utf8(fragment) + encode_utf8(completion)
}

/// An accepted completion.
#[derive(Debug, Clone, PartialEq, Eq)]
pub struct Verdict {
    pub tier: Tier,
    /// Reward in whole units.
    pub reward: u64,
    /// The digest in lowercase hexadecimal ASCII.
    pub hash_hex: Vec<u8>,
}

/// What classifying a digest whose hexadecimal rendering is `hex` yields.
pub open spec fn verdict_matches(r: Result<Verdict, MEMEkError>, hex: Seq<u8>) -> bool {
    match r {
        Ok(v) => tier_of(hex) == Some(v.tier) && v.reward == tier_reward(v.tier) && v.hash_hex@
            == hex,
        Err(e) => tier_of(hex) is None && e == MEMEkError::CompletionLacksResonance,
    }
}

/// Whether `needle` occurs in `hay`.
pub fn contains_pattern(hay: &[u8], needle: &[u8]) -> (r: bool)
    ensures
        r == contains(hay@, needle@),
{
    if needle.len() > hay.len() {
        assert forall|i: int| !occurs_at(hay@, needle@, i) by {}
        return false;
    }
    if needle.len() == 0 {
        assert(hay@.subrange(0, 0) =~= needle@);
        assert(occurs_at(hay@, needle@, 0));
        return true;
    }
    let last = hay.len() - needle.len();
    let mut i: usize = 0;
    while i <= last
        invariant
            last == hay.len() - needle.len(),
            1 <= needle.len() <= hay.len(),
            i <= last + 1,
            forall|k: int| 0 <= k < i ==> !occurs_at(hay@, needle@, k),
        decreases last + 1 - i,
    {
        let mut j: usize = 0;
        let mut same = true;
        while j < needle.len()
            invariant
                i <= last,
                last == hay.len() - needle.len(),
                j <= needle.len(),
                same ==> forall|m: int| 0 <= m < j ==> hay@[i + m] == needle@[m],
                !same ==> !occurs_at(hay@, needle@, i as int),
            decreases needle.len() - j,
        {
            if hay[i + j] != needle[j] {
                same = false;
                assert(hay@.subrange(i as int, i + needle.len())[j as int] != needle@[j as int]);
            }
            j = j + 1;
        }
        if same {
            assert(hay@.subrange(i as int, i + needle.len()) =~= needle@);
            assert(occurs_at(hay@, needle@, i as int));
            return true;
        }
        i = i + 1;
    }
    assert forall|k: int| !occurs_at(hay@, needle@, k) by {
        if 0 <= k && k + needle@.len() <= hay@.len() {
            assert(k < i);
        }
    }
    false
}

/// The tier of a hexadecimal digest, or the rejection of the completion.
pub fn classify_hex(hex: &[u8]) -> (r: Result<Tier, MEMEkError>)
    ensures
        match r {
            Ok(t) => tier_of(hex@) == Some(t),
            Err(e) => tier_of(hex@) is None && e == MEMEkError::CompletionLacksResonance,
        },
{
    let super_pat: [u8; SUPER_PATTERN_LEN] = [55, 51, 54, 57, 55, 56, 54, 54, 54, 57, 55, 54, 54, 53];
    let normal_pat: [u8; 2] = [54, 53];
    assert(super_pat@ =~= super_pattern());
    assert(normal_pat@ =~= normal_pattern());
    if contains_pattern(hex, &super_pat) {
        Ok(Tier::Super)
    } else if contains_pattern(hex, &normal_pat) {
        Ok(Tier::Normal)
    } else {
        Err(MEMEkError::CompletionLacksResonance)
    }
}

/// The reward of a tier, in whole units.
pub fn reward_amount(t: Tier) -> (r: u64)
    ensures
        r == tier_reward(t),
{
    match t {
        Tier::Super => SUPER_REWARD,
        Tier::Normal => NORMAL_REWARD,
    }
}

/// The amount handed to the issuer for a tier: its reward in base units.
pub fn issuance_amount(t: Tier) -> (r: u64)
    ensures
        r == tier_reward(t) * ISSUANCE_SCALE,
{
    reward_amount(t) * ISSUANCE_SCALE
}

/// Classifies a 32-byte digest.
pub fn classify_digest(digest: &[u8; 32]) -> (r: Result<Verdict, MEMEkError>)
    ensures
        verdict_matches(r, hex_ascii(digest@)),
{
    let hash_hex = hex_encode(digest);
    match classify_hex(&hash_hex) {
        Ok(tier) => Ok(Verdict { tier, reward: reward_amount(tier), hash_hex }),
        Err(e) => Err(e),
    }
}

/// The byte-exact concatenation of the fragment and the completion.
pub fn completion_bytes(fragment: &str, completion: &str) -> (r: Vec<u8>)
    ensures
        r@ == completion_preimage(fragment@, completion@),
{
    let mut combined: Vec<u8> = Vec::new();
    combined.extend_from_slice(fragment.as_bytes());
    combined.extend_from_slice(completion.as_bytes());
    combined
}

/// Hashes the fragment followed by the completion and classifies the digest.
pub fn verify_completion(fragment: &str, completion: &str) -> (r: Result<Verdict, MEMEkError>)
    ensures
        verdict_matches(r, hex_ascii(keccak256_of(completion_preimage(fragment@, completion@)))),
{
    let combined = completion_bytes(fragment, completion);
    let digest = keccak256(combined.as_slice());
    classify_digest(&digest)
}

} // verus!

verus! {

/// Classification laws: a digest holding the super pattern earns the super
/// reward whether or not it also holds "65"; one holding "65" but not the super
/// pattern earns the normal reward; one holding neither is rejected.
pub proof fn lemma_classification(r: Result<Verdict, MEMEkError>, hex: Seq<u8>)
    requires
        verdict_matches(r, hex),
    ensures
        contains(hex, super_pattern()) ==> r is Ok && r->Ok_0.tier == Tier::Super
            && r->Ok_0.reward == 65000,
        !contains(hex, super_pattern()) && contains(hex, normal_pattern()) ==> r is Ok
            && r->Ok_0.tier == Tier::Normal && r->Ok_0.reward == 650,
        !contains(hex, super_pattern()) && !contains(hex, normal_pattern()) ==> r
            == Err::<Verdict, MEMEkError>(MEMEkError::CompletionLacksResonance),
{
}

} // verus!
