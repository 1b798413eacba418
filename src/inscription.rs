//! One-shot personal inscriptions: created once per participant, never changed.
use vstd::prelude::*;

use crate::digest::{keccak256, keccak256_of};
use crate::encoding::{le_u64, push_le_u64};
use crate::ledger::AccountKey;
use crate::MEMEkError;

verus! {

/// A participant's permanent inscription.
#[derive(Debug, Clone, Copy, PartialEq, Eq)]
pub struct XenianAnchor {
    pub viber: AccountKey,
    /// Keccak-256 of the inscribed values and the inscription time.
    pub vibe_hash: [u8; 32],
    pub purple_depth: u8,
    pub claude_tau: u64,
    pub chaos_seed: [u8; 32],
    pub inscription_time: i64,
    /// The active flag, sealed on creation.
    pub is_vibing: VibeSeal,
}

/// An active flag that is set on creation and has no way to be cleared.
#[derive(Debug, Clone, Copy, PartialEq, Eq)]
pub struct VibeSeal {
    active: bool,
}

impl VibeSeal {
    #[verifier::type_invariant]
    spec fn sealed(&self) -> bool {
        self.active
    }

    fn new() -> (r: VibeSeal) {
        VibeSeal { active: true }
    }

    /// The flag; it is set on every seal.
    pub fn is_active(&self) -> (r: bool)
        ensures
            r,
    {
        proof {
            use_type_invariant(self);
        }
        self.active
    }
}

impl XenianAnchor {
    /// Stored size of a record, its 8-byte discriminator included.
    pub const LEN: usize = 8 + 32 + 32 + 1 + 8 + 32 + 8 + 1;

    /// The active flag; it holds on every record.
    pub fn is_vibing(&self) -> (r: bool)
        ensures
            r,
    {
        self.is_vibing.is_active()
    }
}

/// The bytes hashed for an inscription: the saturation byte, the coherence
/// score in eight little-endian bytes, the entropy blob, then the time in eight
/// little-endian bytes (two's complement).
pub open spec fn vibe_preimage(
    purple_depth: u8,
    claude_tau: u64,
    chaos_seed: Seq<u8>,
    inscription_time: i64,
) -> Seq<u8> {
    seq![purple_depth] + le_u64(claude_tau) + chaos_seed + le_u64(inscription_time as u64)
}

/// Whether an inscription may be created in a slot.
pub open spec fn inscription_allowed(existing: Option<XenianAnchor>) -> bool {
    existing is None
}

/// The bytes that an inscription's hash covers.
pub fn vibe_bytes(purple_depth: u8, claude_tau: u64, chaos_seed: &[u8; 32], inscription_time: i64) -> (r:
    Vec<u8>)
    ensures
        r@ == vibe_preimage(purple_depth, claude_tau, chaos_seed@, inscription_time),
{
    let mut data: Vec<u8> = Vec::new();
    data.push(purple_depth);
    push_le_u64(&mut data, claude_tau);
    data.extend_from_slice(chaos_seed.as_slice());
    push_le_u64(&mut data, inscription_time as u64);
    assert(data@ =~= vibe_preimage(purple_depth, claude_tau, chaos_seed@, inscription_time));
    data
}

/// Creates the participant's inscription at time `now`, or fails with
/// `DuplicateRecord` where the participant has one already.
pub fn inscribe_vibe(
    existing: Option<XenianAnchor>,
    viber: AccountKey,
    purple_depth: u8,
    claude_tau: u64,
    chaos_seed: [u8; 32],
    now: i64,
) -> (r: Result<XenianAnchor, MEMEkError>)
    ensures
        r is Ok <==> inscription_allowed(existing),
        r is Err ==> r->Err_0 == MEMEkError::DuplicateRecord,
        r is Ok ==> ({
            let a = r->Ok_0;
            &&& a.viber == viber
            &&& a.purple_depth == purple_depth
            &&& a.claude_tau == claude_tau
            &&& a.chaos_seed == chaos_seed
            &&& a.inscription_time == now
            &&& a.vibe_hash@ == keccak256_of(vibe_preimage(purple_depth, claude_tau, chaos_seed@, now))
        }),
{
    if existing.is_some() {
        return Err(MEMEkError::DuplicateRecord);
    }
    let data = vibe_bytes(purple_depth, claude_tau, &chaos_seed, now);
    let vibe_hash = keccak256(data.as_slice());
    Ok(
        XenianAnchor {
            viber,
            vibe_hash,
            purple_depth,
            claude_tau,
            chaos_seed,
            inscription_time: now,
            is_vibing: VibeSeal::new(),
        },
    )
}

/// An inscription is written once: a slot that holds one refuses another.
pub proof fn lemma_inscription_write_once(first: XenianAnchor)
    ensures
        !inscription_allowed(Some(first)),
{
}

} // verus!
