use mem_ek::bridge::{bridge_gap, bridge_gap_2022, settle_completion};
use mem_ek::completion::{
    classify_digest, classify_hex, completion_bytes, contains_pattern, issuance_amount,
    reward_amount, verify_completion, Tier,
};
use mem_ek::encoding::{mint_to_instruction_data, push_le_u64};
use mem_ek::inscription::{inscribe_vibe, vibe_bytes, XenianAnchor};
use mem_ek::kernel::{initialize_kernel, request_fragment, trigger_evolution, KernelSeed};
use mem_ek::ledger::{settle_bridge, AccountKey, MemeticResonanceScore, ResonanceMetadata};
use mem_ek::MEMEkError;
use sha3::Digest;

const EMPTY_KECCAK: &str = "c5d2460186f7233c927e7db2dcc703c0e500b653ca82273b7bfad8045d85a470";

fn key(b: u8) -> AccountKey {
    AccountKey { bytes: [b; 32] }
}

fn keccak_hex(data: &[u8]) -> String {
    hex::encode(sha3::Keccak256::digest(data))
}

fn seed_with(fragment: &str) -> KernelSeed {
    let (seed, _) = initialize_kernel(None, 1, 0, fragment.to_string()).unwrap();
    seed
}

#[test]
fn pattern_search_finds_and_misses() {
    assert!(contains_pattern(b"abc65def", b"65"));
    assert!(contains_pattern(b"65", b"65"));
    assert!(!contains_pattern(b"6x5", b"65"));
    assert!(!contains_pattern(b"6", b"65"));
    assert!(contains_pattern(b"", b""));
}

#[test]
fn super_pattern_takes_priority() {
    let hex = b"0073697866697665ff";
    assert_eq!(classify_hex(hex), Ok(Tier::Super));
    assert_eq!(reward_amount(Tier::Super), 65000);
}

#[test]
fn normal_pattern_alone_gives_normal() {
    assert_eq!(classify_hex(b"00650000"), Ok(Tier::Normal));
    assert_eq!(classify_hex(b"6573697866"), Ok(Tier::Normal));
    assert_eq!(reward_amount(Tier::Normal), 650);
}

#[test]
fn no_pattern_is_rejected() {
    assert_eq!(classify_hex(b"0123456789abcdef"), Err(MEMEkError::CompletionLacksResonance));
    assert_eq!(classify_hex(b""), Err(MEMEkError::CompletionLacksResonance));
}

#[test]
fn issuance_amount_has_nine_decimals() {
    assert_eq!(issuance_amount(Tier::Normal), 650_000_000_000);
    assert_eq!(issuance_amount(Tier::Super), 65_000_000_000_000);
}

#[test]
fn empty_completion_digest_is_keccak_of_nothing() {
    let v = verify_completion("", "").unwrap();
    assert_eq!(String::from_utf8(v.hash_hex).unwrap(), EMPTY_KECCAK);
    assert_eq!(v.tier, Tier::Normal);
    assert_eq!(v.reward, 650);
}

#[test]
fn classify_digest_renders_lowercase_hex() {
    let mut d = [0u8; 32];
    d[0] = 0x65;
    d[1] = 0xab;
    let v = classify_digest(&d).unwrap();
    assert_eq!(&v.hash_hex[..4], b"65ab");
    assert_eq!(v.hash_hex.len(), 64);
    assert_eq!(v.tier, Tier::Normal);
    assert_eq!(classify_digest(&[0u8; 32]), Err(MEMEkError::CompletionLacksResonance));
}

#[test]
fn completion_bytes_concatenate_exactly() {
    assert_eq!(completion_bytes("XEN", "42"), b"XEN42".to_vec());
    assert_eq!(completion_bytes("é", "ß"), "éß".as_bytes().to_vec());
}

#[test]
fn xen_42_scenario() {
    let expected_hex = keccak_hex(b"XEN42");
    let seed = seed_with("XEN");
    let r = bridge_gap(&seed, "42", 0, None, None, key(1), 254, key(2), 1000);
    if expected_hex.contains("73697866697665") {
        let o = r.unwrap();
        assert_eq!(o.verdict.reward, 65000);
        assert_eq!(o.records.resonance.total_gaps_bridged, 1);
    } else if expected_hex.contains("65") {
        let o = r.unwrap();
        assert_eq!(o.verdict.reward, 650);
        assert_eq!(o.issuance_amount, 650_000_000_000);
        assert_eq!(String::from_utf8(o.verdict.hash_hex).unwrap(), expected_hex);
        assert_eq!(o.records.resonance.total_gaps_bridged, 1);
        assert_eq!(o.records.resonance.mint, key(1));
        assert_eq!(o.records.user_score.user, key(2));
        assert_eq!(o.records.user_score.resonance_score, 650);
        assert_eq!(o.records.user_score.last_active, 1000);
    } else {
        assert_eq!(r, Err(MEMEkError::CompletionLacksResonance));
    }
}

fn find_completion(fragment: &str, normal: bool) -> String {
    let mut i: u32 = 0;
    loop {
        let c = format!("{}", i);
        let h = keccak_hex(format!("{}{}", fragment, c).as_bytes());
        if h.contains("65") == normal && !h.contains("73697866697665") {
            return c;
        }
        i += 1;
    }
}

#[test]
fn rejected_completion_touches_no_record() {
    let c = find_completion("frag", false);
    let seed = seed_with("frag");
    let existing = ResonanceMetadata::new(key(1), 3);
    let r = bridge_gap(&seed, &c, 0, Some(existing), None, key(1), 3, key(2), 5);
    assert_eq!(r, Err(MEMEkError::CompletionLacksResonance));
    assert_eq!(existing.total_gaps_bridged, 0);
}

#[test]
fn two_completions_create_records_once() {
    let c = find_completion("frag", true);
    let seed = seed_with("frag");
    let first = bridge_gap(&seed, &c, 0, None, None, key(1), 7, key(2), 10).unwrap();
    let second = bridge_gap(
        &seed,
        &c,
        0,
        Some(first.records.resonance),
        Some(first.records.user_score),
        key(9),
        8,
        key(2),
        20,
    )
    .unwrap();
    assert_eq!(second.records.resonance.total_gaps_bridged, 2);
    assert_eq!(second.records.resonance.semantic_diversity, 20);
    assert_eq!(second.records.resonance.mint, key(1));
    assert_eq!(second.records.resonance.bump, 7);
    assert_eq!(second.records.user_score.resonance_score, 1300);
    assert_eq!(second.records.user_score.last_active, 20);
}

#[test]
fn token_2022_path_builds_mint_instruction() {
    let c = find_completion("frag", true);
    let seed = seed_with("frag");
    let (o, data) = bridge_gap_2022(&seed, &c, 0, None, None, key(1), 7, key(2), 10).unwrap();
    let mut expected = vec![7u8];
    expected.extend_from_slice(&o.issuance_amount.to_le_bytes());
    assert_eq!(data, expected);
}

#[test]
fn settle_completion_on_given_digest() {
    let mut d = [0u8; 32];
    d[5] = 0x65;
    let o = settle_completion(&d, None, None, key(1), 1, key(2), 3).unwrap();
    assert_eq!(o.verdict.tier, Tier::Normal);
    assert_eq!(o.records.user_score.resonance_score, 650);
    let r = settle_completion(&[0u8; 32], None, None, key(1), 1, key(2), 3);
    assert_eq!(r, Err(MEMEkError::CompletionLacksResonance));
}

#[test]
fn mint_instruction_layout() {
    assert_eq!(
        mint_to_instruction_data(650_000_000_000),
        vec![7, 0, 228, 4, 87, 151, 0, 0, 0]
    );
    assert_eq!(mint_to_instruction_data(u64::MAX), vec![7, 255, 255, 255, 255, 255, 255, 255, 255]);
    let mut v = vec![1u8];
    push_le_u64(&mut v, 0x0102030405060708);
    assert_eq!(v, vec![1, 8, 7, 6, 5, 4, 3, 2, 1]);
}

#[test]
fn bridging_event_counts_and_decays_strain() {
    let mut m = ResonanceMetadata::new(key(1), 0);
    m.kernel_strain = 2;
    for _ in 0..3 {
        m.record_bridging_event(0, 10).unwrap();
    }
    assert_eq!(m.total_gaps_bridged, 3);
    assert_eq!(m.semantic_diversity, 30);
    assert_eq!(m.kernel_strain, 0);
}

#[test]
fn bridging_event_overflow_leaves_record() {
    let mut m = ResonanceMetadata::new(key(1), 0);
    m.total_gaps_bridged = u64::MAX;
    let before = m;
    assert_eq!(m.record_bridging_event(0, 10), Err(MEMEkError::ArithmeticOverflow));
    assert_eq!(m, before);
    let mut m2 = ResonanceMetadata::new(key(1), 0);
    m2.semantic_diversity = u64::MAX - 9;
    assert_eq!(m2.record_bridging_event(0, 10), Err(MEMEkError::ArithmeticOverflow));
}

#[test]
fn score_overflow_is_reported() {
    let mut s = MemeticResonanceScore::new(key(2));
    s.resonance_score = u64::MAX - 100;
    let r = settle_bridge(None, Some(s), key(1), 0, key(2), 650, 9);
    assert_eq!(r, Err(MEMEkError::ArithmeticOverflow));
    let mut s2 = MemeticResonanceScore::new(key(2));
    assert_eq!(s2.credit(650, 4), Ok(()));
    assert_eq!(s2.resonance_score, 650);
    assert_eq!(s2.last_active, 4);
}

#[test]
fn settle_creates_missing_records() {
    let r = settle_bridge(None, None, key(1), 5, key(2), 65000, 77).unwrap();
    assert_eq!(r.resonance.mint, key(1));
    assert_eq!(r.resonance.bump, 5);
    assert_eq!(r.resonance.total_gaps_bridged, 1);
    assert_eq!(r.resonance.semantic_diversity, 10);
    assert_eq!(r.resonance.kernel_strain, 0);
    assert_eq!(r.user_score.user, key(2));
    assert_eq!(r.user_score.resonance_score, 65000);
    assert_eq!(r.user_score.last_active, 77);
}

#[test]
fn kernel_initialization() {
    let (seed, state) = initialize_kernel(None, 42, 1, "XEN".to_string()).unwrap();
    assert_eq!(seed.seed_id, 42);
    assert_eq!(seed.fragment_data, "XEN");
    assert_eq!(seed.difficulty, 1);
    assert!(seed.is_active);
    assert_eq!(seed.constraint_hash, [0u8; 32]);
    assert_eq!(state.current_epoch, 0);
    assert_eq!(state.dominant_style, "Genesis");
    assert_eq!(state.constraint_mutation_rate, 1);
    let again = initialize_kernel(Some(&seed), 42, 1, "XEN".to_string());
    assert_eq!(again.err(), Some(MEMEkError::DuplicateRecord));
}

#[test]
fn evolution_advances_each_step() {
    let (mut seed, mut state) = initialize_kernel(None, 1, 1, "XEN".to_string()).unwrap();
    for _ in 0..5 {
        trigger_evolution(&mut state, &mut seed).unwrap();
    }
    assert_eq!(state.current_epoch, 5);
    assert_eq!(state.constraint_mutation_rate, 6);
    assert_eq!(seed.difficulty, 1 ^ 1);
    assert_eq!(seed.fragment_data, "XEN...............");
    assert_eq!(seed.fragment_data.len(), 3 + 3 * 5);
    assert_eq!(state.dominant_style, "Genesis");
}

#[test]
fn evolution_toggles_large_difficulty() {
    let (mut seed, mut state) = initialize_kernel(None, 1, 255, String::new()).unwrap();
    trigger_evolution(&mut state, &mut seed).unwrap();
    assert_eq!(seed.difficulty, 0);
    trigger_evolution(&mut state, &mut seed).unwrap();
    assert_eq!(seed.difficulty, 1);
}

#[test]
fn evolution_overflow_changes_nothing() {
    let (mut seed, mut state) = initialize_kernel(None, 1, 0, "ab".to_string()).unwrap();
    state.constraint_mutation_rate = u8::MAX;
    assert_eq!(trigger_evolution(&mut state, &mut seed), Err(MEMEkError::ArithmeticOverflow));
    assert_eq!(state.current_epoch, 0);
    assert_eq!(seed.fragment_data, "ab");
    assert_eq!(seed.difficulty, 0);
}

#[test]
fn fragment_is_readable() {
    let seed = seed_with("naïve");
    assert_eq!(request_fragment(&seed), "naïve".as_bytes().to_vec());
}

#[test]
fn inscription_is_write_once() {
    let a = inscribe_vibe(None, key(3), 200, 12345, [9u8; 32], -5).unwrap();
    assert!(a.is_vibing());
    assert_eq!(a.viber, key(3));
    assert_eq!(a.purple_depth, 200);
    assert_eq!(a.claude_tau, 12345);
    assert_eq!(a.chaos_seed, [9u8; 32]);
    assert_eq!(a.inscription_time, -5);
    let second = inscribe_vibe(Some(a), key(3), 1, 2, [0u8; 32], 6);
    assert_eq!(second, Err(MEMEkError::DuplicateRecord));
}

#[test]
fn inscription_hash_covers_values_and_time() {
    let seed = [4u8; 32];
    let a = inscribe_vibe(None, key(3), 7, 0x0102, seed, 1_700_000_000).unwrap();
    let mut pre = vec![7u8];
    pre.extend_from_slice(&0x0102u64.to_le_bytes());
    pre.extend_from_slice(&seed);
    pre.extend_from_slice(&1_700_000_000i64.to_le_bytes());
    assert_eq!(vibe_bytes(7, 0x0102, &seed, 1_700_000_000), pre);
    let expected: [u8; 32] = sha3::Keccak256::digest(&pre).into();
    assert_eq!(a.vibe_hash, expected);
    assert_eq!(vibe_bytes(0, 0, &[0u8; 32], -1)[41..], [255u8; 8]);
}

#[test]
fn inscription_record_size() {
    assert_eq!(XenianAnchor::LEN, 122);
}
