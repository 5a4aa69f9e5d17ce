use vstd::prelude::*;

verus! {

/// One step of the xorshift32 generator (shifts 13, 17, 5) the effects use
/// for their deterministic noise.
pub open spec fn spec_xorshift32(x: u32) -> u32 {
    let a = x ^ (x << 13u32);
    let b = a ^ (a >> 17u32);
    b ^ (b << 5u32)
}

/// The state after `n` steps from `seed`.
pub open spec fn xorshift_after(seed: u32, n: nat) -> u32
    decreases n,
{
    if n == 0 {
        seed
    } else {
        spec_xorshift32(xorshift_after(seed, (n - 1) as nat))
    }
}

/// The next xorshift32 state after `x`.
pub fn xorshift32(x: u32) -> (r: u32)
    ensures
        r == spec_xorshift32(x),
{
    let mut s = x;
    s ^= s << 13u32;
    s ^= s >> 17u32;
    s ^= s << 5u32;
    s
}

/// A non-zero state never steps to zero, so a generator seeded away from zero
/// never sticks at zero (zero is the one state xorshift maps to itself).
pub proof fn lemma_xorshift_nonzero(x: u32)
    ensures
        x != 0 ==> spec_xorshift32(x) != 0,
        x == 0 ==> spec_xorshift32(x) == 0,
{
    let a = x ^ (x << 13u32);
    let b = a ^ (a >> 17u32);
    assert(x != 0 ==> a != 0) by (bit_vector)
        requires a == x ^ (x << 13u32);
    assert(a != 0 ==> b != 0) by (bit_vector)
        requires b == a ^ (a >> 17u32);
    assert(b != 0 ==> (b ^ (b << 5u32)) != 0) by (bit_vector);
    assert(x == 0 ==> a == 0) by (bit_vector)
        requires a == x ^ (x << 13u32);
    assert(a == 0 ==> b == 0) by (bit_vector)
        requires b == a ^ (a >> 17u32);
    assert(b == 0 ==> (b ^ (b << 5u32)) == 0) by (bit_vector);
}

/// Every state reached from a non-zero seed is non-zero.
pub proof fn lemma_xorshift_stream_nonzero(seed: u32, n: nat)
    requires
        seed != 0,
    ensures
        xorshift_after(seed, n) != 0,
    decreases n,
{
    if n > 0 {
        lemma_xorshift_stream_nonzero(seed, (n - 1) as nat);
        lemma_xorshift_nonzero(xorshift_after(seed, (n - 1) as nat));
    }
}

/// The noise seed of choir voice `voice`: a golden-ratio offset plus a
/// per-voice multiple, with the low bit forced on so it is never zero.
pub open spec fn spec_choir_seed(voice: u32) -> u32 {
    ((0x9E37_79B9int + ((voice as int + 1) % 0x1_0000_0000 * 0x6D2B_79F5) % 0x1_0000_0000)
        % 0x1_0000_0000) as u32 | 1u32
}

/// The noise seed of choir voice `voice`.
pub fn choir_seed(voice: u32) -> (seed: u32)
    ensures
        seed == spec_choir_seed(voice),
        seed != 0,
        seed & 1 == 1,
{
    let v1 = voice.wrapping_add(1);
    let m = v1.wrapping_mul(0x6D2B_79F5u32);
    let w = 0x9E37_79B9u32.wrapping_add(m);
    proof {
        let r: int = 0x1_0000_0000;
        assert(v1 as int == (voice as int + 1) % r) by {
            if voice as int + 1 == r {
                vstd::arithmetic::div_mod::lemma_mod_self_0(r);
            } else {
                vstd::arithmetic::div_mod::lemma_small_mod((voice as int + 1) as nat, r as nat);
            }
        }
        let sum = 0x9E37_79B9int + m as int;
        if sum >= r {
            vstd::arithmetic::div_mod::lemma_mod_add_multiples_vanish(sum - r, r);
            vstd::arithmetic::div_mod::lemma_small_mod((sum - r) as nat, r as nat);
        } else {
            vstd::arithmetic::div_mod::lemma_small_mod(sum as nat, r as nat);
        }
        assert(w as int == sum % r);
    }
    let s = w | 1u32;
    assert(s & 1 == 1) by (bit_vector)
        requires s == (0x9E37_79B9u32.wrapping_add(m) | 1u32);
    assert(s != 0) by (bit_vector)
        requires s & 1 == 1;
    s
}

} // verus!

verus! {

/// Taps per channel of the velvet-noise decorrelator.
pub const VELVET_TAPS: usize = 64;

/// Seed of the velvet decorrelator's tap generator.
pub const VELVET_SEED: u32 = 0x9E37_79B9;

/// One velvet-noise tap: a delay in samples and a polarity.
#[derive(Debug, Clone, Copy, PartialEq, Eq, Structural)]
pub struct VelvetTap {
    pub delay: usize,
    /// `true` for +1, `false` for -1.
    pub positive: bool,
}

/// Delay of tap `k` in a window of `len` samples, given the random draw `r`:
/// the tap's even share of the window plus a jitter below the share's width,
/// clamped to `1..=len-1`.
pub open spec fn velvet_delay(len: int, k: int, r: u32) -> int {
    let width = if len / 64 > 1 { len / 64 } else { 1 };
    let d = k * (len - 1) / 64 + (r as int) % width;
    if d < 1 {
        1
    } else if d > len - 1 {
        len - 1
    } else {
        d
    }
}

/// Tap `k` of a channel whose draws start after `offset` generator steps: the
/// jitter takes the next draw, the polarity the one after.
pub open spec fn velvet_tap(len: int, offset: nat, k: int) -> VelvetTap {
    VelvetTap {
        delay: velvet_delay(len, k, xorshift_after(VELVET_SEED, (offset + 2 * k + 1) as nat)) as usize,
        positive: xorshift_after(VELVET_SEED, (offset + 2 * k + 2) as nat) & 1 == 0,
    }
}

/// The left and right tap sets of a velvet decorrelator with a window of `len`
/// samples: 64 taps each, the left from the first 128 draws of the generator,
/// the right from the next 128.
pub fn velvet_taps(len: usize) -> (taps: (Vec<VelvetTap>, Vec<VelvetTap>))
    requires
        2 <= len <= usize::MAX / 64,
    ensures
        taps.0@.len() == VELVET_TAPS,
        taps.1@.len() == VELVET_TAPS,
        forall|k: int| 0 <= k < VELVET_TAPS ==> #[trigger] taps.0@[k] == velvet_tap(len as int, 0, k),
        forall|k: int| 0 <= k < VELVET_TAPS ==> #[trigger] taps.1@[k] == velvet_tap(len as int, 128, k),
{
    let mut state = VELVET_SEED;
    let ghost mut steps: nat = 0;
    let mut sides: Vec<Vec<VelvetTap>> = Vec::new();
    let mut side: usize = 0;
    let width = if len / VELVET_TAPS > 1 { len / VELVET_TAPS } else { 1 };
    while side < 2
        invariant
            2 <= len <= usize::MAX / 64,
            width == (if len / 64 > 1 { len / 64 } else { 1 }),
            side <= 2,
            sides@.len() == side,
            steps == 128 * side,
            state == xorshift_after(VELVET_SEED, steps),
            forall|s: int, k: int|
                0 <= s < side && 0 <= k < VELVET_TAPS ==> (#[trigger] sides@[s]@[k]) == velvet_tap(
                    len as int,
                    (128 * s) as nat,
                    k,
                ),
            forall|s: int| 0 <= s < side ==> (#[trigger] sides@[s]@).len() == VELVET_TAPS,
        decreases 2 - side,
    {
        let ghost base_steps = steps;
        let mut taps: Vec<VelvetTap> = Vec::new();
        let mut k: usize = 0;
        while k < VELVET_TAPS
            invariant
                2 <= len <= usize::MAX / 64,
                width == (if len / 64 > 1 { len / 64 } else { 1 }),
                k <= VELVET_TAPS,
                taps@.len() == k,
                steps == base_steps + 2 * k,
                state == xorshift_after(VELVET_SEED, steps),
                forall|j: int| 0 <= j < k ==> #[trigger] taps@[j] == velvet_tap(len as int, base_steps, j),
            decreases VELVET_TAPS - k,
        {
            assert(k * (len - 1) <= 64 * (len - 1)) by (nonlinear_arith)
                requires k < 64, len >= 2;
            let base = k * (len - 1) / VELVET_TAPS;
            state = xorshift32(state);
            proof { steps = steps + 1; }
            let jitter = (state as usize) % width;
            let sum = base + jitter;
            let delay = if sum < 1 { 1 } else if sum > len - 1 { len - 1 } else { sum };
            state = xorshift32(state);
            proof { steps = steps + 1; }
            let positive = state & 1 == 0;
            taps.push(VelvetTap { delay, positive });
            proof {
                assert(taps@[k as int] == velvet_tap(len as int, base_steps, k as int));
            }
            k += 1;
        }
        sides.push(taps);
        side += 1;
    }
    let right = sides.pop().unwrap();
    let left = sides.pop().unwrap();
    (left, right)
}

/// Every velvet tap delays by at least one sample and less than the window,
/// so a tap read `delay` samples behind the write position stays inside the
/// buffer and never reads the sample just written.
pub proof fn lemma_velvet_delays_in_window(len: int, offset: nat, k: int)
    requires
        2 <= len <= usize::MAX,
        0 <= k < 64,
    ensures
        1 <= velvet_tap(len, offset, k).delay < len,
{
    let r = xorshift_after(VELVET_SEED, (offset + 2 * k + 1) as nat);
    let width = if len / 64 > 1 { len / 64 } else { 1 };
    vstd::arithmetic::div_mod::lemma_mod_bound(r as int, width);
    assert(0 <= k * (len - 1)) by (nonlinear_arith)
        requires k >= 0, len >= 2;
    vstd::arithmetic::div_mod::lemma_div_pos_is_pos(k * (len - 1), 64);
    let d = velvet_delay(len, k, r);
    assert(1 <= d <= len - 1);
    assert(velvet_tap(len, offset, k).delay == d as usize);
}

} // verus!

verus! {

/// The 16-bit hash that perturbs early-reflection tap `k` for room seed
/// `seed`: `((seed * 2654435761) ^ (k * 40503)) >> 9`, products wrapping at
/// 32 bits, low 16 bits kept.
pub open spec fn spec_reflection_hash(seed: u32, k: u32) -> u32 {
    let a = ((seed as nat * 2654435761nat) % 0x1_0000_0000) as u32;
    let b = ((k as nat * 40503nat) % 0x1_0000_0000) as u32;
    ((a ^ b) >> 9u32) & 0xFFFFu32
}

/// The hash that scales early-reflection tap `k` for room seed `seed`; the
/// tap's delay is its base time times `0.82 + 0.36 * hash / 65535`.
pub fn reflection_hash(seed: u32, k: u32) -> (h: u32)
    ensures
        h == spec_reflection_hash(seed, k),
        h <= 0xFFFF,
        h as int == (((((seed as nat * 2654435761nat) % 0x1_0000_0000) as u32) ^ (((k as nat
            * 40503nat) % 0x1_0000_0000) as u32)) as int / 512) % 65536,
{
    proof {
        lemma_reflection_hash_is_bits_9_to_24(seed, k);
    }
    let a = seed.wrapping_mul(2654435761u32);
    let b = k.wrapping_mul(40503u32);
    let h = ((a ^ b) >> 9u32) & 0xFFFFu32;
    assert(h <= 0xFFFF) by (bit_vector)
        requires h == ((a ^ b) >> 9u32) & 0xFFFFu32;
    h
}

/// The reflection hash is bits 9 to 24 of the mixed word: with
/// `x = (seed * 2654435761 mod 2^32) XOR (k * 40503 mod 2^32)`, the hash is
/// `floor(x / 512) mod 65536`, the full 16-bit range.
pub proof fn lemma_reflection_hash_is_bits_9_to_24(seed: u32, k: u32)
    ensures
        spec_reflection_hash(seed, k) as int == (((((seed as nat * 2654435761nat) % 0x1_0000_0000)
            as u32) ^ (((k as nat * 40503nat) % 0x1_0000_0000) as u32)) as int / 512) % 65536,
{
    let a = ((seed as nat * 2654435761nat) % 0x1_0000_0000) as u32;
    let b = ((k as nat * 40503nat) % 0x1_0000_0000) as u32;
    let x = a ^ b;
    assert(((x >> 9u32) & 0xFFFFu32) == (x / 512) % 65536) by (bit_vector);
}

/// The hash reaches the upper half of its range: room seed 0x2222 gives tap 1
/// the hash 50074, so its delay scales by about 1.095 (the range is 0.82 to
/// 1.18).
pub proof fn lemma_reflection_hash_upper_half()
    ensures
        spec_reflection_hash(0x2222, 1) == 50074,
        spec_reflection_hash(0x2222, 1) >= 32768,
{
    let a = ((0x2222nat * 2654435761nat) % 0x1_0000_0000) as u32;
    let b = ((1nat * 40503nat) % 0x1_0000_0000) as u32;
    assert(a == 1636281218u32);
    assert(b == 40503u32);
    assert(((1636281218u32 ^ 40503u32) >> 9u32) & 0xFFFFu32 == 50074u32) by (bit_vector);
}


} // verus!
