//! Deterministic per-topic color derivation.
//!
//! A topic string is folded into a 64-bit hash; a golden-ratio multiple of
//! the hash spreads successive hashes over the hue circle, and fixed windows
//! of the hash pick a vivid saturation and lightness. The HSL triple is then
//! converted to RGB with the standard chroma / hue-sector / lightness-offset
//! formula, carried out in fixed-point integer arithmetic (hue in
//! millidegrees, channel values in 1/20000ths of full scale).

use vstd::prelude::*;

verus! {

use vstd::string::StrSliceExecFns;

/// A 24-bit color, one byte per channel.
#[derive(Clone, Copy, Debug, PartialEq, Eq, Structural)]
pub struct Rgb {
    pub r: u8,
    pub g: u8,
    pub b: u8,
}

pub const FNV_OFFSET_BASIS: u64 = 0xcbf2_9ce4_8422_2325;

pub const FNV_PRIME: u64 = 0x100_0000_01b3;

/// One step of the FNV-1a fold: xor the next character's code point in, then
/// multiply by the FNV prime with wraparound.
pub open spec fn fnv1a_step(h: u64, c: char) -> u64 {
    vstd::wrapping::u64_specs::wrapping_mul(h ^ ((c as u32) as u64), FNV_PRIME)
}

/// FNV-1a over a character sequence.
pub open spec fn fnv1a(s: Seq<char>) -> u64
    decreases s.len(),
{
    if s.len() == 0 {
        FNV_OFFSET_BASIS
    } else {
        fnv1a_step(fnv1a(s.drop_last()), s.last())
    }
}

/// The hash behind a topic's color.
pub open spec fn topic_hash(s: Seq<char>) -> u64 {
    fnv1a(s)
}

pub fn hash_topic(s: &str) -> (h: u64)
    ensures
        h == topic_hash(s@),
{
    let n = s.unicode_len();
    let mut h: u64 = FNV_OFFSET_BASIS;
    let mut i: usize = 0;
    while i < n
        invariant
            i <= n,
            n == s@.len(),
            h == fnv1a(s@.take(i as int)),
        decreases n - i,
    {
        let c = s.get_char(i);
        h = (h ^ ((c as u32) as u64)).wrapping_mul(FNV_PRIME);
        i = i + 1;
        proof {
            assert(s@.take(i as int).drop_last() =~= s@.take(i - 1));
            assert(s@.take(i as int).last() == s@[i - 1]);
        }
    }
    proof {
        assert(s@.take(n as int) =~= s@);
    }
    h
}

/// Hue in millidegrees: the hash times the golden-ratio fraction
/// 0.618033988749895, taken modulo 360 degrees.
pub open spec fn hue_millidegrees(hash: u64) -> u64 {
    ((((hash as int) * 618_033_988_749_895) / 1_000_000_000_000) % 360_000) as u64
}

/// Saturation percent, in [75, 100).
pub open spec fn saturation_pct(hash: u64) -> u64 {
    (75 + ((hash >> 8) % 25)) as u64
}

/// Lightness percent, in [45, 60).
pub open spec fn lightness_pct(hash: u64) -> u64 {
    (45 + ((hash >> 16) % 15)) as u64
}

pub fn hue_of_hash(hash: u64) -> (h: u64)
    ensures
        h == hue_millidegrees(hash),
        h < 360_000,
{
    proof {
        assert((hash as int) * 618_033_988_749_895 <= 0xffff_ffff_ffff_ffff * 618_033_988_749_895)
            by (nonlinear_arith)
            requires hash <= 0xffff_ffff_ffff_ffff;
    }
    let prod: u128 = (hash as u128) * 618_033_988_749_895u128;
    let milli: u128 = (prod / 1_000_000_000_000u128) % 360_000u128;
    milli as u64
}

/// Absolute difference.
pub open spec fn dist(a: int, b: int) -> int {
    if a >= b {
        a - b
    } else {
        b - a
    }
}

/// Chroma scaled by 10000: (1 - |2l - 1|) * s with s and l in percent.
pub open spec fn spec_chroma(s_pct: int, l_pct: int) -> int {
    (100 - dist(2 * l_pct, 100)) * s_pct
}

/// How far the hue sits from its sector edge, scaled by 60000:
/// 1 - |(h / 60 degrees) mod 2 - 1|.
pub open spec fn spec_hue_factor(h_milli: int) -> int {
    60_000 - dist(h_milli % 120_000, 60_000)
}

/// The secondary component x = chroma * hue factor, scaled by 10000.
pub open spec fn spec_x(h_milli: int, s_pct: int, l_pct: int) -> int {
    spec_chroma(s_pct, l_pct) * spec_hue_factor(h_milli) / 60_000
}

/// The lightness offset m = l - chroma/2, scaled by 20000.
pub open spec fn spec_m2(s_pct: int, l_pct: int) -> int {
    200 * l_pct - spec_chroma(s_pct, l_pct)
}

/// One channel: (v + m) of full scale, rounded to the nearest of 255 steps.
/// `v` is scaled by 10000, `m2` by 20000.
pub open spec fn spec_channel(v: int, m2: int) -> int {
    ((2 * v + m2) * 255 + 10_000) / 20_000
}

/// The (r, g, b) base components, before the lightness offset, chosen by the
/// hue's 60-degree sector; the half-open comparisons put a hue lying exactly
/// on a sector edge into the lower sector, and the last sector is the
/// catch-all.
pub open spec fn spec_rgb_base(h_milli: int, s_pct: int, l_pct: int) -> (int, int, int) {
    let c = spec_chroma(s_pct, l_pct);
    let x = spec_x(h_milli, s_pct, l_pct);
    if h_milli < 60_000 {
        (c, x, 0)
    } else if h_milli < 120_000 {
        (x, c, 0)
    } else if h_milli < 180_000 {
        (0, c, x)
    } else if h_milli < 240_000 {
        (0, x, c)
    } else if h_milli < 300_000 {
        (x, 0, c)
    } else {
        (c, 0, x)
    }
}

/// HSL to RGB, with hue in millidegrees and saturation and lightness in
/// percent.
pub open spec fn spec_hsl_to_rgb(h_milli: int, s_pct: int, l_pct: int) -> Rgb {
    let base = spec_rgb_base(h_milli, s_pct, l_pct);
    let m2 = spec_m2(s_pct, l_pct);
    Rgb {
        r: spec_channel(base.0, m2) as u8,
        g: spec_channel(base.1, m2) as u8,
        b: spec_channel(base.2, m2) as u8,
    }
}

/// The color derived from a topic string.
pub open spec fn spec_derive_color(s: Seq<char>) -> Rgb {
    spec_hsl_to_rgb(
        hue_millidegrees(topic_hash(s)) as int,
        saturation_pct(topic_hash(s)) as int,
        lightness_pct(topic_hash(s)) as int,
    )
}

proof fn lemma_chroma_bounds(s_pct: int, l_pct: int)
    requires
        0 <= s_pct <= 100,
        0 <= l_pct <= 100,
    ensures
        0 <= spec_chroma(s_pct, l_pct) <= 10_000,
        spec_chroma(s_pct, l_pct) <= 200 * l_pct,
        spec_chroma(s_pct, l_pct) + 200 * l_pct <= 20_000,
{
    let d = dist(2 * l_pct, 100);
    assert(0 <= 100 - d <= 100);
    assert((100 - d) * s_pct <= 100 * 100) by (nonlinear_arith)
        requires 0 <= 100 - d <= 100 && 0 <= s_pct <= 100;
    assert((100 - d) * s_pct >= 0) by (nonlinear_arith)
        requires 0 <= 100 - d && 0 <= s_pct;
    if 2 * l_pct <= 100 {
        assert(100 - d == 2 * l_pct);
        assert((100 - d) * s_pct <= (100 - d) * 100) by (nonlinear_arith)
            requires 0 <= 100 - d && 0 <= s_pct <= 100;
    } else {
        assert(100 - d == 200 - 2 * l_pct);
        assert((100 - d) * s_pct <= (100 - d) * 100) by (nonlinear_arith)
            requires 0 <= 100 - d && 0 <= s_pct <= 100;
    }
}

proof fn lemma_x_bounds(h_milli: int, s_pct: int, l_pct: int)
    requires
        0 <= h_milli,
        0 <= s_pct <= 100,
        0 <= l_pct <= 100,
    ensures
        0 <= spec_x(h_milli, s_pct, l_pct) <= spec_chroma(s_pct, l_pct),
{
    lemma_chroma_bounds(s_pct, l_pct);
    let c = spec_chroma(s_pct, l_pct);
    let f = spec_hue_factor(h_milli);
    assert(0 <= h_milli % 120_000 < 120_000);
    assert(0 <= f <= 60_000);
    assert(c * f <= c * 60_000) by (nonlinear_arith)
        requires 0 <= c && 0 <= f <= 60_000;
    assert(c * f >= 0) by (nonlinear_arith)
        requires 0 <= c && 0 <= f;
    assert(c * f / 60_000 <= c * 60_000 / 60_000) by (nonlinear_arith)
        requires c * f <= c * 60_000;
    assert(c * 60_000 / 60_000 == c) by (nonlinear_arith);
    assert(c * f / 60_000 >= 0) by (nonlinear_arith)
        requires c * f >= 0;
}

proof fn lemma_channel_bounds(v: int, s_pct: int, l_pct: int)
    requires
        0 <= s_pct <= 100,
        0 <= l_pct <= 100,
        0 <= v <= spec_chroma(s_pct, l_pct),
    ensures
        0 <= spec_channel(v, spec_m2(s_pct, l_pct)) <= 255,
{
    lemma_chroma_bounds(s_pct, l_pct);
    let m2 = spec_m2(s_pct, l_pct);
    assert(0 <= 2 * v + m2 <= 20_000);
    assert((2 * v + m2) * 255 <= 20_000 * 255) by (nonlinear_arith)
        requires 0 <= 2 * v + m2 <= 20_000;
    assert((2 * v + m2) * 255 >= 0) by (nonlinear_arith)
        requires 0 <= 2 * v + m2;
}

pub fn hsl_to_rgb(h_milli: u64, s_pct: u64, l_pct: u64) -> (rgb: Rgb)
    requires
        h_milli < 360_000,
        s_pct <= 100,
        l_pct <= 100,
    ensures
        rgb == spec_hsl_to_rgb(h_milli as int, s_pct as int, l_pct as int),
{
    proof {
        lemma_chroma_bounds(s_pct as int, l_pct as int);
        lemma_x_bounds(h_milli as int, s_pct as int, l_pct as int);
    }
    let two_l = 2 * l_pct;
    let dl = if two_l >= 100 {
        two_l - 100
    } else {
        100 - two_l
    };
    let c = (100 - dl) * s_pct;
    let hm = h_milli % 120_000;
    let dh = if hm >= 60_000 {
        hm - 60_000
    } else {
        60_000 - hm
    };
    let x = c * (60_000 - dh) / 60_000;
    let m2 = 200 * l_pct - c;
    let base = if h_milli < 60_000 {
        (c, x, 0)
    } else if h_milli < 120_000 {
        (x, c, 0)
    } else if h_milli < 180_000 {
        (0, c, x)
    } else if h_milli < 240_000 {
        (0, x, c)
    } else if h_milli < 300_000 {
        (x, 0, c)
    } else {
        (c, 0, x)
    };
    proof {
        lemma_channel_bounds(base.0 as int, s_pct as int, l_pct as int);
        lemma_channel_bounds(base.1 as int, s_pct as int, l_pct as int);
        lemma_channel_bounds(base.2 as int, s_pct as int, l_pct as int);
    }
    let r = ((2 * base.0 + m2) * 255 + 10_000) / 20_000;
    let g = ((2 * base.1 + m2) * 255 + 10_000) / 20_000;
    let b = ((2 * base.2 + m2) * 255 + 10_000) / 20_000;
    Rgb { r: r as u8, g: g as u8, b: b as u8 }
}

/// Derives the stable, vivid color that identifies a topic in the log.
pub fn derive_color_from_string(input: &str) -> (c: Rgb)
    ensures
        c == spec_derive_color(input@),
{
    let hash = hash_topic(input);
    let h = hue_of_hash(hash);
    let s = 75 + ((hash >> 8) % 25);
    let l = 45 + ((hash >> 16) % 15);
    hsl_to_rgb(h, s, l)
}

/// Law: the color derived from a topic depends on the topic string alone;
/// equal strings always receive equal colors.
pub proof fn lemma_derive_color_deterministic(s1: Seq<char>, s2: Seq<char>)
    requires
        s1 == s2,
    ensures
        spec_derive_color(s1) == spec_derive_color(s2),
{
}

/// Law: the derived saturation lies in [75, 100) percent and the lightness
/// in [45, 60) percent, keeping every topic color vivid.
pub proof fn lemma_color_ranges(hash: u64)
    ensures
        75 <= saturation_pct(hash) < 100,
        45 <= lightness_pct(hash) < 60,
        hue_millidegrees(hash) < 360_000,
{
}

} // verus!
