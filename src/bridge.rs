//! The completion path: classify a completion and, when it earns a reward,
//! settle it in the resonance records. Both issuance backends share it.
use vstd::prelude::*;

use crate::completion::{
    classify_digest, completion_bytes, completion_preimage, issuance_amount, tier_of, tier_reward,
    Verdict, ISSUANCE_SCALE,
};
use crate::digest::{hex_ascii, keccak256, keccak256_of};
use crate::encoding::{le_u64, mint_to_instruction_data, MINT_TO_TAG};
use crate::kernel::KernelSeed;
use crate::ledger::{
    settle_bridge, settled, AccountKey, BridgeRecords, MemeticResonanceScore, ResonanceMetadata,
};
use crate::MEMEkError;

verus! {

/// A rewarded completion: the verdict, the base units to issue to the
/// participant, and the records to store once issuance has succeeded.
#[derive(Debug, Clone, PartialEq, Eq)]
pub struct BridgeOutcome {
    pub verdict: Verdict,
    pub issuance_amount: u64,
    pub records: BridgeRecords,
}

/// What the completion path yields for a digest whose hexadecimal rendering is
/// `hex`: a rejection, an overflow of the records, or the rewarded outcome.
pub open spec fn bridge_matches(
    r: Result<BridgeOutcome, MEMEkError>,
    hex: Seq<u8>,
    resonance: Option<ResonanceMetadata>,
    user_score: Option<MemeticResonanceScore>,
    mint: AccountKey,
    bump: u8,
    user: AccountKey,
    now: i64,
) -> bool {
    match tier_of(hex) {
        None => r == Err::<BridgeOutcome, MEMEkError>(MEMEkError::CompletionLacksResonance),
        Some(t) => match settled(resonance, user_score, mint, bump, user, tier_reward(t), now) {
            Err(e) => r == Err::<BridgeOutcome, MEMEkError>(e),
            Ok(records) => r is Ok && r->Ok_0.verdict.tier == t && r->Ok_0.verdict.reward
                == tier_reward(t) && r->Ok_0.verdict.hash_hex@ == hex && r->Ok_0.issuance_amount
                == tier_reward(t) * ISSUANCE_SCALE && r->Ok_0.records == records,
        },
    }
}

/// The completion path for a given digest of the fragment and the completion.
pub fn settle_completion(
    digest: &[u8; 32],
    resonance: Option<ResonanceMetadata>,
    user_score: Option<MemeticResonanceScore>,
    mint: AccountKey,
    bump: u8,
    user: AccountKey,
    now: i64,
) -> (r: Result<BridgeOutcome, MEMEkError>)
    ensures
        bridge_matches(r, hex_ascii(digest@), resonance, user_score, mint, bump, user, now),
{
    let verdict = match classify_digest(digest) {
        Ok(v) => v,
        Err(e) => return Err(e),
    };
    let amount = issuance_amount(verdict.tier);
    match settle_bridge(resonance, user_score, mint, bump, user, verdict.reward, now) {
        Ok(records) => Ok(BridgeOutcome { verdict, issuance_amount: amount, records }),
        Err(e) => Err(e),
    }
}

/// Runs the completion path against the standard token backend: the caller
/// issues `issuance_amount` and then stores the records.
pub fn bridge_gap(
    seed: &KernelSeed,
    completion_text: &str,
    _salt: u64,
    resonance: Option<ResonanceMetadata>,
    user_score: Option<MemeticResonanceScore>,
    mint: AccountKey,
    bump: u8,
    user: AccountKey,
    now: i64,
) -> (r: Result<BridgeOutcome, MEMEkError>)
    ensures
        bridge_matches(
            r,
            hex_ascii(keccak256_of(completion_preimage(seed.fragment_data@, completion_text@))),
            resonance,
            user_score,
            mint,
            bump,
            user,
            now,
        ),
{
    let combined = completion_bytes(seed.fragment_data.as_str(), completion_text);
    let digest = keccak256(combined.as_slice());
    settle_completion(&digest, resonance, user_score, mint, bump, user, now)
}

/// Runs the completion path against the token-2022 backend: besides the
/// outcome, the data of the `MintTo` instruction that issues the reward.
pub fn bridge_gap_2022(
    seed: &KernelSeed,
    completion_text: &str,
    salt: u64,
    resonance: Option<ResonanceMetadata>,
    user_score: Option<MemeticResonanceScore>,
    mint: AccountKey,
    bump: u8,
    user: AccountKey,
    now: i64,
) -> (r: Result<(BridgeOutcome, Vec<u8>), MEMEkError>)
    ensures
        bridge_matches(
            match r {
                Ok(p) => Ok(p.0),
                Err(e) => Err(e),
            },
            hex_ascii(keccak256_of(completion_preimage(seed.fragment_data@, completion_text@))),
            resonance,
            user_score,
            mint,
            bump,
            user,
            now,
        ),
        r is Ok ==> r->Ok_0.1@ == seq![MINT_TO_TAG] + le_u64(r->Ok_0.0.issuance_amount),
{
    match bridge_gap(seed, completion_text, salt, resonance, user_score, mint, bump, user, now) {
        Ok(outcome) => {
            let data = mint_to_instruction_data(outcome.issuance_amount);
            Ok((outcome, data))
        },
        Err(e) => Err(e),
    }
}

} // verus!
