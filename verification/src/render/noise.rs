//! The integer hashes behind the renderers' textures and shimmer: a value that looks
//! random but is fixed by its inputs, so that a texture stays put from frame to frame.

use vstd::prelude::*;

verus! {

/// 2^32.
pub open spec fn pow32() -> nat {
    0x1_0000_0000
}

/// 2^64.
pub open spec fn pow64() -> nat {
    0x1_0000_0000_0000_0000
}

/// `v` reduced to 32 bits.
pub open spec fn low32(v: nat) -> u32 {
    (v % pow32()) as u32
}

/// `v` reduced to 64 bits.
pub open spec fn low64(v: nat) -> u64 {
    (v % pow64()) as u64
}

/// The texture hash of pixel `(x, y)` under `seed`: a linear mix of the three modulo
/// 2^32, then a xor-shift, a multiply modulo 2^32 and a second xor-shift.
pub open spec fn spec_pseudo_hash(x: u32, y: u32, seed: u32) -> u32 {
    let h = low32(x as nat * 374761393 + y as nat * 668265263 + seed as nat * 2246822519);
    let g = low32((h ^ (h >> 13u32)) as nat * 3266489917);
    g ^ (g >> 16u32)
}

/// `a + b` wrapped to 32 bits is their sum modulo 2^32.
proof fn lemma_wrapping_add32(a: u32, b: u32)
    ensures
        vstd::wrapping::u32_specs::wrapping_add(a, b) == low32(a as nat + b as nat),
{
    let m = pow32() as int;
    let s = a as int + b as int;
    if s >= m {
        vstd::arithmetic::div_mod::lemma_fundamental_div_mod_converse(s, m, 1, s - m);
    } else {
        vstd::arithmetic::div_mod::lemma_small_mod(s as nat, m as nat);
    }
}

/// `a + b` wrapped to 64 bits is their sum modulo 2^64.
proof fn lemma_wrapping_add64(a: u64, b: u64)
    ensures
        vstd::wrapping::u64_specs::wrapping_add(a, b) == low64(a as nat + b as nat),
{
    let m = pow64() as int;
    let s = a as int + b as int;
    if s >= m {
        vstd::arithmetic::div_mod::lemma_fundamental_div_mod_converse(s, m, 1, s - m);
    } else {
        vstd::arithmetic::div_mod::lemma_small_mod(s as nat, m as nat);
    }
}

/// Reducing the terms of a sum first does not change the sum's residue.
proof fn lemma_sum_mod(a: nat, b: nat, m: nat)
    requires
        m > 0,
    ensures
        ((a % m) + (b % m)) % m == (a + b) % m,
{
    vstd::arithmetic::div_mod::lemma_add_mod_noop(a as int, b as int, m as int);
}

/// The texture hash of pixel `(x, y)` under `seed`.
pub fn pseudo_hash(x: u32, y: u32, seed: u32) -> (r: u32)
    ensures
        r == spec_pseudo_hash(x, y, seed),
{
    let a = x.wrapping_mul(374761393);
    let b = y.wrapping_mul(668265263);
    let c = seed.wrapping_mul(2246822519);
    let ab = a.wrapping_add(b);
    let h = ab.wrapping_add(c);
    proof {
        let m = pow32();
        let xa = x as nat * 374761393;
        let yb = y as nat * 668265263;
        let sc = seed as nat * 2246822519;
        lemma_wrapping_add32(a, b);
        lemma_sum_mod(xa, yb, m);
        assert(ab == low32(xa + yb));
        lemma_wrapping_add32(ab, c);
        lemma_sum_mod(xa + yb, sc, m);
        assert(h == low32(xa + yb + sc));
    }
    let g = (h ^ (h >> 13)).wrapping_mul(3266489917);
    g ^ (g >> 16)
}

/// The shimmer noise of column `x` in frame `frame`: a linear mix modulo 2^64 followed
/// by three xor-shift rounds, two of them with a multiply modulo 2^64.
pub open spec fn spec_noise_bits(x: u64, frame: u64) -> u64 {
    let n0 = low64(x as nat * 0x9E37_79B9_7F4A_7C15 + frame as nat * 0xBF58_476D_1CE4_E5B9);
    let n1 = low64((n0 ^ (n0 >> 30u64)) as nat * 0xBF58_476D_1CE4_E5B9);
    let n2 = low64((n1 ^ (n1 >> 27u64)) as nat * 0x94D0_49BB_1331_11EB);
    n2 ^ (n2 >> 31u64)
}

/// The shimmer noise of column `x` in frame `frame`, over the whole `u64` range (the
/// renderer scales it to a fraction of `u64::MAX`).
pub fn noise_bits(x: u64, frame: u64) -> (r: u64)
    ensures
        r == spec_noise_bits(x, frame),
{
    let a = x.wrapping_mul(0x9E37_79B9_7F4A_7C15);
    let b = frame.wrapping_mul(0xBF58_476D_1CE4_E5B9);
    let mut n = a.wrapping_add(b);
    proof {
        lemma_wrapping_add64(a, b);
        lemma_sum_mod(x as nat * 0x9E37_79B9_7F4A_7C15, frame as nat * 0xBF58_476D_1CE4_E5B9, pow64());
    }
    n ^= n >> 30;
    n = n.wrapping_mul(0xBF58_476D_1CE4_E5B9);
    n ^= n >> 27;
    n = n.wrapping_mul(0x94D0_49BB_1331_11EB);
    n ^= n >> 31;
    n
}

/// The step of the scatter pattern that `frame` shows in row `row`, column `col`: the
/// pattern moves one step every three frames, each cell a few frames ahead of the last.
pub open spec fn scatter_step(row: nat, col: nat, frame: nat) -> nat {
    (frame + row * 3 + col) / 3
}

/// The scatter pattern's value, in ten-thousandths, for band `band`, cell `(row, col)`
/// and frame `frame`: a weighted sum of the four, a xor-shift, a multiply modulo 2^64,
/// a second xor-shift, and the remainder by 10 000.
pub open spec fn spec_scatter_hash(band: nat, row: nat, col: nat, frame: nat) -> u64 {
    let h0 = (band * 7919 + row * 6271 + col * 3037 + scatter_step(row, col, frame) * 104_729) as u64;
    let h1 = low64((h0 ^ (h0 >> 16u64)) as nat * 0x45d9f3b37197344b);
    (h1 ^ (h1 >> 16u64)) % 10_000
}

/// The inputs for which the scatter hash's sums fit in 64 bits.
pub open spec fn scatter_fits(band: nat, row: nat, col: nat, frame: nat) -> bool {
    &&& row * 3 + col <= usize::MAX
    &&& frame + row * 3 + col <= u64::MAX
    &&& band * 7919 + row * 6271 + col * 3037 + scatter_step(row, col, frame) * 104_729 <= u64::MAX
}

/// The scatter pattern's value, from 0 to 9 999 (the renderer reads it as a fraction).
pub fn scatter_hash(band: usize, row: usize, col: usize, frame: u64) -> (r: u64)
    requires
        scatter_fits(band as nat, row as nat, col as nat, frame as nat),
    ensures
        r == spec_scatter_hash(band as nat, row as nat, col as nat, frame as nat),
        r < 10_000,
{
    let offset = (row * 3 + col) as u64;
    let f = (frame + offset) / 3;
    let mut h = band as u64 * 7919 + row as u64 * 6271 + col as u64 * 3037 + f * 104_729;
    h ^= h >> 16;
    h = h.wrapping_mul(0x45d9f3b37197344b);
    h ^= h >> 16;
    h % 10_000
}

} // verus!
