//! Puzzle instances and the evolution clock that mutates them.
use vstd::prelude::*;
use vstd::string::{StrSliceExecFns, StringExecFns};
use vstd::utf8::encode_utf8;

use crate::MEMEkError;

verus! {

/// One puzzle instance.
#[derive(Debug, Clone)]
pub struct KernelSeed {
    pub seed_id: u64,
    /// The fragment to complete; it only grows.
    pub fragment_data: String,
    pub constraint_hash: [u8; 32],
    /// Tier selector, toggled by each evolution step.
    pub difficulty: u8,
    pub is_active: bool,
}

/// The mutation clock of a puzzle.
#[derive(Debug, Clone)]
pub struct EvolutionState {
    pub current_epoch: u64,
    pub dominant_style: String,
    pub constraint_mutation_rate: u8,
}

/// Registry-wide puzzle counters.
#[derive(Debug, Clone, Copy, PartialEq, Eq)]
pub struct Mycelium {
    pub total_seeds: u64,
    pub active_seeds: u64,
}

pub struct KernelSeedView {
    pub seed_id: u64,
    pub fragment: Seq<char>,
    pub constraint_hash: Seq<u8>,
    pub difficulty: u8,
    pub is_active: bool,
}

pub struct EvolutionStateView {
    pub current_epoch: u64,
    pub dominant_style: Seq<char>,
    pub constraint_mutation_rate: u8,
}

impl View for KernelSeed {
    type V = KernelSeedView;

    open spec fn view(&self) -> KernelSeedView {
        KernelSeedView {
            seed_id: self.seed_id,
            fragment: self.fragment_data@,
            constraint_hash: self.constraint_hash@,
            difficulty: self.difficulty,
            is_active: self.is_active,
        }
    }
}

impl View for EvolutionState {
    type V = EvolutionStateView;

    open spec fn view(&self) -> EvolutionStateView {
        EvolutionStateView {
            current_epoch: self.current_epoch,
            dominant_style: self.dominant_style@,
            constraint_mutation_rate: self.constraint_mutation_rate,
        }
    }
}

/// The text appended to the fragment by each evolution step.
pub open spec fn drift_suffix() -> Seq<char> {
    seq!['.', '.', '.']
}

/// The style label of a new clock.
pub open spec fn genesis_style() -> Seq<char> {
    seq!['G', 'e', 'n', 'e', 's', 'i', 's']
}

/// Whether one more evolution step fits the clock's counters.
pub open spec fn evolution_fits(state: EvolutionStateView) -> bool {
    state.current_epoch < u64::MAX && state.constraint_mutation_rate < u8::MAX
}

/// The clock after one evolution step.
pub open spec fn evolved_state(state: EvolutionStateView) -> EvolutionStateView {
    EvolutionStateView {
        current_epoch: (state.current_epoch + 1) as u64,
        dominant_style: state.dominant_style,
        constraint_mutation_rate: (state.constraint_mutation_rate + 1) as u8,
    }
}

/// The puzzle after one evolution step: difficulty toggled, fragment drifted.
pub open spec fn evolved_seed(seed: KernelSeedView) -> KernelSeedView {
    KernelSeedView {
        seed_id: seed.seed_id,
        fragment: seed.fragment + drift_suffix(),
        constraint_hash: seed.constraint_hash,
        difficulty: ((seed.difficulty + 1) % 2) as u8,
        is_active: seed.is_active,
    }
}

/// The clock and the puzzle after `n` evolution steps.
pub open spec fn evolve_n(state: EvolutionStateView, seed: KernelSeedView, n: nat) -> (
    EvolutionStateView,
    KernelSeedView,
)
    decreases n,
{
    if n == 0 {
        (state, seed)
    } else {
        let (s, k) = evolve_n(state, seed, (n - 1) as nat);
        (evolved_state(s), evolved_seed(k))
    }
}

/// A new active puzzle and its clock at epoch zero, or `DuplicateRecord` where
/// the puzzle exists already.
pub fn initialize_kernel(
    existing: Option<&KernelSeed>,
    seed_id: u64,
    difficulty: u8,
    fragment_data: String,
) -> (r: Result<(KernelSeed, EvolutionState), MEMEkError>)
    ensures
        existing is Some <==> r is Err,
        r is Err ==> r->Err_0 == MEMEkError::DuplicateRecord,
        r is Ok ==> ({
            let (seed, state) = r->Ok_0;
            &&& seed.seed_id == seed_id
            &&& seed@.fragment == fragment_data@
            &&& seed.constraint_hash@ == Seq::new(32, |i: int| 0u8)
            &&& seed.difficulty == difficulty
            &&& seed.is_active
            &&& state.current_epoch == 0
            &&& state@.dominant_style == genesis_style()
            &&& state.constraint_mutation_rate == 1
        }),
{
    if existing.is_some() {
        return Err(MEMEkError::DuplicateRecord);
    }
    let seed = KernelSeed {
        seed_id,
        fragment_data,
        constraint_hash: [0u8; 32],
        difficulty,
        is_active: true,
    };
    proof {
        reveal_strlit("Genesis");
    }
    let style = String::from_str("Genesis");
    assert(style@ =~= genesis_style());
    assert(seed.constraint_hash@ =~= Seq::new(32, |i: int| 0u8));
    let state = EvolutionState {
        current_epoch: 0,
        dominant_style: style,
        constraint_mutation_rate: 1,
    };
    Ok((seed, state))
}

/// Advances the clock by one epoch: epoch and mutation rate go up by one, the
/// difficulty toggles between zero and one, and the fragment drifts by "...".
/// Where a counter would overflow, nothing changes.
pub fn trigger_evolution(state: &mut EvolutionState, seed: &mut KernelSeed) -> (r: Result<
    (),
    MEMEkError,
>)
    ensures
        r is Ok <==> evolution_fits(old(state)@),
        r is Ok ==> final(state)@ == evolved_state(old(state)@) && final(seed)@ == evolved_seed(
            old(seed)@,
        ),
        r is Err ==> r->Err_0 == MEMEkError::ArithmeticOverflow && final(state)@ == old(state)@
            && final(seed)@ == old(seed)@,
{
    if state.current_epoch == u64::MAX || state.constraint_mutation_rate == u8::MAX {
        return Err(MEMEkError::ArithmeticOverflow);
    }
    state.current_epoch = state.current_epoch + 1;
    state.constraint_mutation_rate = state.constraint_mutation_rate + 1;
    seed.difficulty = ((seed.difficulty as u16 + 1) % 2) as u8;
    proof {
        reveal_strlit("...");
    }
    seed.fragment_data.append("...");
    assert(seed.fragment_data@ =~= old(seed).fragment_data@ + drift_suffix());
    Ok(())
}

/// The fragment's UTF-8 bytes, readable by anyone.
pub fn request_fragment(seed: &KernelSeed) -> (r: Vec<u8>)
    ensures
        r@ == encode_utf8(seed@.fragment),
{
    seed.fragment_data.as_str().as_bytes_vec()
}

} // verus!

verus! {

proof fn lemma_toggle_bit(d: u8)
    requires
        d <= 1,
    ensures
        d ^ 0 == d,
        d ^ 1 == 1 - d,
{
    assert(d <= 1 ==> d ^ 0 == d && d ^ 1 == 1 - d) by (bit_vector);
}

/// Evolution advances monotonically: from a clock whose counters leave room
/// for `n` steps, each of the `n` steps succeeds; the epoch and the mutation
/// rate rise by `n`; a difficulty of zero or one is flipped once per step; and
/// the fragment grows by three characters per step.
pub proof fn lemma_evolution_progress(state: EvolutionStateView, seed: KernelSeedView, n: nat)
    requires
        seed.difficulty <= 1,
        state.current_epoch + n <= u64::MAX,
        state.constraint_mutation_rate + n <= u8::MAX,
    ensures
        forall|k: nat| k < n ==> evolution_fits(#[trigger] evolve_n(state, seed, k).0),
        evolve_n(state, seed, n).0.current_epoch == state.current_epoch + n,
        evolve_n(state, seed, n).0.constraint_mutation_rate == state.constraint_mutation_rate + n,
        evolve_n(state, seed, n).1.difficulty == seed.difficulty ^ ((n % 2) as u8),
        evolve_n(state, seed, n).1.fragment.len() == seed.fragment.len() + 3 * n,
    decreases n,
{
    lemma_toggle_bit(seed.difficulty);
    if n > 0 {
        lemma_evolution_progress(state, seed, (n - 1) as nat);
        assert forall|k: nat| k < n implies evolution_fits(#[trigger] evolve_n(state, seed, k).0) by {
            if k < n - 1 {
                assert(evolution_fits(evolve_n(state, seed, k).0));
            }
        }
    }
}

} // verus!
