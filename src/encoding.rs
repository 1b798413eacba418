//! Little-endian integer encoding and the token-2022 mint instruction.
use vstd::prelude::*;

verus! {

/// Instruction tag of the token-2022 `MintTo` instruction.
pub const MINT_TO_TAG: u8 = 7;

/// The `k` least significant base-256 digits of `n`, least significant first.
pub open spec fn le_bytes(n: nat, k: nat) -> Seq<u8>
    decreases k,
{
    if k == 0 {
        Seq::empty()
    } else {
        seq![(n % 256) as u8] + le_bytes(n / 256, (k - 1) as nat)
    }
}

/// The eight little-endian bytes of a `u64`.
pub open spec fn le_u64(n: u64) -> Seq<u8> {
    le_bytes(n as nat, 8)
}

/// Appends the eight little-endian bytes of `n` to `out`.
pub fn push_le_u64(out: &mut Vec<u8>, n: u64)
    ensures
        final(out)@ == old(out)@ + le_u64(n),
{
    let ghost start = out@;
    let mut x: u64 = n;
    let mut i: usize = 0;
    while i < 8
        invariant
            i <= 8,
            out@ + le_bytes(x as nat, (8 - i) as nat) == start + le_bytes(n as nat, 8),
        decreases 8 - i,
    {
        let ghost before = out@;
        assert(le_bytes(x as nat, (8 - i) as nat) == seq![(x as nat % 256) as u8] + le_bytes(
            x as nat / 256,
            (8 - i - 1) as nat,
        ));
        out.push((x % 256) as u8);
        assert(out@ == before + seq![(x as nat % 256) as u8]);
        assert(out@ + le_bytes(x as nat / 256, (8 - i - 1) as nat) =~= before + le_bytes(
            x as nat,
            (8 - i) as nat,
        ));
        x = x / 256;
        i = i + 1;
    }
    assert(le_bytes(x as nat, 0) =~= Seq::<u8>::empty());
    assert(out@ =~= start + le_u64(n));
}

/// Instruction data of a token-2022 `MintTo` of `amount` base units: the
/// tag, then the amount in little-endian order.
pub fn mint_to_instruction_data(amount: u64) -> (r: Vec<u8>)
    ensures
        r@ == seq![MINT_TO_TAG] + le_u64(amount),
{
    let mut data: Vec<u8> = Vec::new();
    data.push(MINT_TO_TAG);
    push_le_u64(&mut data, amount);
    data
}

} // verus!
