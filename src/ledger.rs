//! Per-puzzle and per-participant resonance records, created on first use.
use vstd::prelude::*;

use crate::MEMEkError;

verus! {

/// Novelty added to a puzzle's diversity score by each successful completion.
pub const COMPLETION_NOVELTY: u8 = 10;

/// A 32-byte account address.
#[derive(Debug, Clone, Copy, PartialEq, Eq)]
pub struct AccountKey {
    pub bytes: [u8; 32],
}

/// Aggregate statistics of one puzzle.
#[derive(Debug, Clone, Copy, PartialEq, Eq)]
pub struct ResonanceMetadata {
    /// The issuer captured on the puzzle's first successful completion.
    pub mint: AccountKey,
    pub total_gaps_bridged: u64,
    pub semantic_diversity: u64,
    /// Decays toward zero by one per successful completion.
    pub kernel_strain: u64,
    pub last_mutation: i64,
    pub bump: u8,
}

/// Cumulative score of one participant.
#[derive(Debug, Clone, Copy, PartialEq, Eq)]
pub struct MemeticResonanceScore {
    /// The participant captured on first use.
    pub user: AccountKey,
    pub resonance_score: u64,
    pub viral_coefficient: u16,
    pub creative_variance: u16,
    pub last_active: i64,
}

/// Whether recording one more completion with `novelty` fits the counters.
pub open spec fn bridging_fits(m: ResonanceMetadata, novelty: u8) -> bool {
    m.total_gaps_bridged < u64::MAX && m.semantic_diversity + novelty <= u64::MAX
}

/// `m` after one more successful completion with `novelty`.
pub open spec fn bridged(m: ResonanceMetadata, novelty: u8) -> ResonanceMetadata {
    ResonanceMetadata {
        mint: m.mint,
        total_gaps_bridged: (m.total_gaps_bridged + 1) as u64,
        semantic_diversity: (m.semantic_diversity + novelty) as u64,
        kernel_strain: if m.kernel_strain == 0 {
            0
        } else {
            (m.kernel_strain - 1) as u64
        },
        last_mutation: m.last_mutation,
        bump: m.bump,
    }
}

/// A fresh puzzle record, bound to its issuer.
pub open spec fn fresh_resonance(mint: AccountKey, bump: u8) -> ResonanceMetadata {
    ResonanceMetadata {
        mint,
        total_gaps_bridged: 0,
        semantic_diversity: 0,
        kernel_strain: 0,
        last_mutation: 0,
        bump,
    }
}

/// A fresh participant record.
pub open spec fn fresh_score(user: AccountKey) -> MemeticResonanceScore {
    MemeticResonanceScore {
        user,
        resonance_score: 0,
        viral_coefficient: 0,
        creative_variance: 0,
        last_active: 0,
    }
}

/// The puzzle record as found, or a fresh one where none exists.
pub open spec fn opened_resonance(
    slot: Option<ResonanceMetadata>,
    mint: AccountKey,
    bump: u8,
) -> ResonanceMetadata {
    match slot {
        Some(m) => m,
        None => fresh_resonance(mint, bump),
    }
}

/// The participant record as found, or a fresh one where none exists.
pub open spec fn opened_score(
    slot: Option<MemeticResonanceScore>,
    user: AccountKey,
) -> MemeticResonanceScore {
    match slot {
        Some(s) => s,
        None => fresh_score(user),
    }
}

/// `s` after a completion rewarded with `reward` at time `now`.
pub open spec fn credited(s: MemeticResonanceScore, reward: u64, now: i64) -> MemeticResonanceScore {
    MemeticResonanceScore {
        user: s.user,
        resonance_score: (s.resonance_score + reward) as u64,
        viral_coefficient: s.viral_coefficient,
        creative_variance: s.creative_variance,
        last_active: now,
    }
}

/// Both records after a successful completion.
#[derive(Debug, Clone, Copy, PartialEq, Eq)]
pub struct BridgeRecords {
    pub resonance: ResonanceMetadata,
    pub user_score: MemeticResonanceScore,
}

/// What settling a rewarded completion yields: both records updated, or an
/// overflow with nothing recorded.
pub open spec fn settled(
    resonance: Option<ResonanceMetadata>,
    user_score: Option<MemeticResonanceScore>,
    mint: AccountKey,
    bump: u8,
    user: AccountKey,
    reward: u64,
    now: i64,
) -> Result<BridgeRecords, MEMEkError> {
    let m = opened_resonance(resonance, mint, bump);
    let s = opened_score(user_score, user);
    if bridging_fits(m, COMPLETION_NOVELTY) && s.resonance_score + reward <= u64::MAX {
        Ok(
            BridgeRecords {
                resonance: bridged(m, COMPLETION_NOVELTY),
                user_score: credited(s, reward, now),
            },
        )
    } else {
        Err(MEMEkError::ArithmeticOverflow)
    }
}

impl ResonanceMetadata {
    /// A fresh record for a puzzle, bound to its issuer.
    pub fn new(mint: AccountKey, bump: u8) -> (r: ResonanceMetadata)
        ensures
            r == fresh_resonance(mint, bump),
    {
        ResonanceMetadata {
            mint,
            total_gaps_bridged: 0,
            semantic_diversity: 0,
            kernel_strain: 0,
            last_mutation: 0,
            bump,
        }
    }

    /// Counts one successful completion: one more gap bridged, `completion_novelty`
    /// more diversity, and one less strain, never below zero. On overflow the
    /// record is left as it was.
    pub fn record_bridging_event(&mut self, _fragment_complexity: u8, completion_novelty: u8) -> (r:
        Result<(), MEMEkError>)
        ensures
            r is Ok <==> bridging_fits(*old(self), completion_novelty),
            r is Ok ==> *final(self) == bridged(*old(self), completion_novelty),
            r is Err ==> r == Err::<(), MEMEkError>(MEMEkError::ArithmeticOverflow) && *final(self)
                == *old(self),
    {
        if self.total_gaps_bridged == u64::MAX || self.semantic_diversity > u64::MAX
            - completion_novelty as u64 {
            return Err(MEMEkError::ArithmeticOverflow);
        }
        self.total_gaps_bridged = self.total_gaps_bridged + 1;
        self.semantic_diversity = self.semantic_diversity + completion_novelty as u64;
        self.kernel_strain = self.kernel_strain.saturating_sub(1);
        Ok(())
    }
}

impl MemeticResonanceScore {
    /// A fresh record for a participant.
    pub fn new(user: AccountKey) -> (r: MemeticResonanceScore)
        ensures
            r == fresh_score(user),
    {
        MemeticResonanceScore {
            user,
            resonance_score: 0,
            viral_coefficient: 0,
            creative_variance: 0,
            last_active: 0,
        }
    }

    /// Adds `reward` to the score and stamps `now`; on overflow the record is
    /// left as it was.
    pub fn credit(&mut self, reward: u64, now: i64) -> (r: Result<(), MEMEkError>)
        ensures
            r is Ok <==> old(self).resonance_score + reward <= u64::MAX,
            r is Ok ==> *final(self) == credited(*old(self), reward, now),
            r is Err ==> r == Err::<(), MEMEkError>(MEMEkError::ArithmeticOverflow) && *final(self)
                == *old(self),
    {
        match self.resonance_score.checked_add(reward) {
            Some(total) => {
                self.resonance_score = total;
                self.last_active = now;
                Ok(())
            },
            None => Err(MEMEkError::ArithmeticOverflow),
        }
    }
}

/// Records a rewarded completion in the puzzle's and the participant's records,
/// creating each that does not exist yet. The records are handed back only when
/// both updates succeed.
pub fn settle_bridge(
    resonance: Option<ResonanceMetadata>,
    user_score: Option<MemeticResonanceScore>,
    mint: AccountKey,
    bump: u8,
    user: AccountKey,
    reward: u64,
    now: i64,
) -> (r: Result<BridgeRecords, MEMEkError>)
    ensures
        r == settled(resonance, user_score, mint, bump, user, reward, now),
{
    let mut m = match resonance {
        Some(m) => m,
        None => ResonanceMetadata::new(mint, bump),
    };
    let mut s = match user_score {
        Some(s) => s,
        None => MemeticResonanceScore::new(user),
    };
    // The fragment's complexity is not consulted by the puzzle record.
    match m.record_bridging_event(0, COMPLETION_NOVELTY) {
        Ok(()) => {},
        Err(e) => return Err(e),
    }
    match s.credit(reward, now) {
        Ok(()) => {},
        Err(e) => return Err(e),
    }
    Ok(BridgeRecords { resonance: m, user_score: s })
}

} // verus!

verus! {

/// `m` after `n` successful completions.
pub open spec fn bridged_n(m: ResonanceMetadata, n: nat) -> ResonanceMetadata
    decreases n,
{
    if n == 0 {
        m
    } else {
        bridged(bridged_n(m, (n - 1) as nat), COMPLETION_NOVELTY)
    }
}

/// Strain decays by one per completion and stops at zero: after `n`
/// completions it is the initial strain less `n`, or zero, and never negative.
pub proof fn lemma_strain_floor(m: ResonanceMetadata, n: nat)
    ensures
        bridged_n(m, n).kernel_strain == if m.kernel_strain >= n {
            m.kernel_strain - n
        } else {
            0
        },
        bridged_n(m, n).kernel_strain >= 0,
    decreases n,
{
    if n > 0 {
        lemma_strain_floor(m, (n - 1) as nat);
    }
}

/// Two rewarded completions by a new participant on a new puzzle create each
/// record once: the second finds the records of the first, keeps its issuer
/// and participant, counts two gaps bridged, and holds the sum of both rewards.
pub proof fn lemma_two_completions(
    mint: AccountKey,
    bump: u8,
    user: AccountKey,
    first_reward: u64,
    first_time: i64,
    later_mint: AccountKey,
    later_bump: u8,
    second_reward: u64,
    second_time: i64,
)
    requires
        first_reward + second_reward <= u64::MAX,
    ensures
        ({
            let first = settled(None, None, mint, bump, user, first_reward, first_time);
            &&& first is Ok
            &&& ({
                let a = first->Ok_0;
                let second = settled(
                    Some(a.resonance),
                    Some(a.user_score),
                    later_mint,
                    later_bump,
                    user,
                    second_reward,
                    second_time,
                );
                &&& second is Ok
                &&& second->Ok_0.resonance.total_gaps_bridged == 2
                &&& second->Ok_0.resonance.mint == mint
                &&& second->Ok_0.user_score.user == user
                &&& second->Ok_0.user_score.resonance_score == first_reward + second_reward
            })
        }),
{
}

} // verus!
