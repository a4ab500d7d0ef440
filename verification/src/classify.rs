//! Sorting an elevation into a band.
//!
//! Three policies exist side by side and are never mixed:
//!
//! * the *bands*: eight biomes with the land on the high elevations, each
//!   band closed at its floor (`>=`);
//! * the *inverted bands*: the same eight biomes in the reverse direction,
//!   the water on the high elevations, each band open at its floor (`>`);
//! * the *two tones*: water above one half, land at or below it.
//!
//! An elevation lies between 0 and 1. A noise value becomes one by the
//! clamped policy, `clamped`: a number outside the interval is moved to the
//! nearer end, and a NaN counts as 0. The three classifiers take any noise
//! value and give it the band of its elevation: a NaN compares false against
//! every floor, as 0 does, and so takes the lowest band of the policy, which
//! is deep water in the bands, high mountain in the inverted bands and land
//! in the two tones.

use crate::binary64::{
    lemma_one_scaled, lemma_scaled_magnitude_increasing, lemma_within_half_ulp, Binary64,
    ONE_BITS,
};
use crate::biome::{get_biome, Biome};
use vstd::arithmetic::power2::*;
use vstd::prelude::*;

verus! {

/// The binary64 nearest to 0.10.
pub const LEVEL_0_10: u64 = 0x3FB9_9999_9999_999A;

/// The binary64 nearest to 0.20.
pub const LEVEL_0_20: u64 = 0x3FC9_9999_9999_999A;

/// 0.50.
pub const LEVEL_0_50: u64 = 0x3FE0_0000_0000_0000;

/// The binary64 nearest to 0.65.
pub const LEVEL_0_65: u64 = 0x3FE4_CCCC_CCCC_CCCD;

/// The binary64 nearest to 0.70.
pub const LEVEL_0_70: u64 = 0x3FE6_6666_6666_6666;

/// The binary64 nearest to 0.80.
pub const LEVEL_0_80: u64 = 0x3FE9_9999_9999_999A;

/// The binary64 nearest to 0.85.
pub const LEVEL_0_85: u64 = 0x3FEB_3333_3333_3333;

/// The binary64 nearest to 0.90.
pub const LEVEL_0_90: u64 = 0x3FEC_CCCC_CCCC_CCCD;

/// The binary64 nearest to 0.95.
pub const LEVEL_0_95: u64 = 0x3FEE_6666_6666_6666;

/// The binary64 nearest to 0.99.
pub const LEVEL_0_99: u64 = 0x3FEF_AE14_7AE1_47AE;

/// The number with the given bits.
pub open spec fn level(bits: u64) -> Binary64 {
    Binary64 { bits }
}

/// How an elevation is turned into a colour.
#[derive(Clone, Copy, Debug, PartialEq, Eq, Structural)]
pub enum ClassificationPolicy {
    /// Eight biomes, the land on the high elevations.
    Bands,
    /// Eight biomes, the water on the high elevations.
    InvertedBands,
    /// Water above one half, land below.
    TwoTone,
}

/// The two buckets of the two-tone policy.
#[derive(Clone, Copy, Debug, PartialEq, Eq, Structural)]
pub enum Tone {
    Water,
    Land,
}

impl Tone {
    /// Pure blue for the water, pure green for the land.
    pub open spec fn color(self) -> (u8, u8, u8) {
        match self {
            Tone::Water => (0, 0, 255),
            Tone::Land => (0, 255, 0),
        }
    }
}

// ------------------------------------------------------- clamped policy

/// The elevation that a noise value stands for: the value itself inside the
/// interval from 0 to 1, the nearer end of the interval outside it, and 0
/// for a NaN.
pub open spec fn clamped(noise: Binary64) -> Binary64 {
    if noise.nan() {
        Binary64 { bits: 0 }
    } else {
        noise.clamp_unit()
    }
}

/// The elevation that a noise value stands for. It lies between 0 and 1
/// whatever the noise value is.
pub fn clamp_elevation(noise: Binary64) -> (elevation: Binary64)
    ensures
        elevation == clamped(noise),
        elevation.in_unit_interval(),
        noise.in_unit_interval() ==> elevation == noise,
{
    if noise.is_nan() {
        Binary64 { bits: 0 }
    } else {
        noise.clamp_unit()
    }
}

// ---------------------------------------------------------------- bands

/// The elevation is at or above the floor of the biome's band. The deep water
/// has no floor.
pub open spec fn reaches(e: Binary64, b: Biome) -> bool {
    match b {
        Biome::DeepWater => true,
        Biome::Water => e.ge(level(LEVEL_0_10)),
        Biome::Shore => e.ge(level(LEVEL_0_20)),
        Biome::Sand => e.ge(level(LEVEL_0_50)),
        Biome::Grass => e.ge(level(LEVEL_0_70)),
        Biome::Forest => e.ge(level(LEVEL_0_80)),
        Biome::Mountain => e.ge(level(LEVEL_0_90)),
        Biome::HighMountain => e.ge(level(LEVEL_0_95)),
    }
}

/// The biome one rank up, if there is one.
pub open spec fn next_higher(b: Biome) -> Option<Biome> {
    match b {
        Biome::DeepWater => Some(Biome::Water),
        Biome::Water => Some(Biome::Shore),
        Biome::Shore => Some(Biome::Sand),
        Biome::Sand => Some(Biome::Grass),
        Biome::Grass => Some(Biome::Forest),
        Biome::Forest => Some(Biome::Mountain),
        Biome::Mountain => Some(Biome::HighMountain),
        Biome::HighMountain => None,
    }
}

/// The biome one rank down, if there is one.
pub open spec fn next_lower(b: Biome) -> Option<Biome> {
    match b {
        Biome::DeepWater => None,
        Biome::Water => Some(Biome::DeepWater),
        Biome::Shore => Some(Biome::Water),
        Biome::Sand => Some(Biome::Shore),
        Biome::Grass => Some(Biome::Sand),
        Biome::Forest => Some(Biome::Grass),
        Biome::Mountain => Some(Biome::Forest),
        Biome::HighMountain => Some(Biome::Mountain),
    }
}

/// The elevation lies in the band of the biome: at or above its floor and
/// under the floor of the next biome up.
pub open spec fn in_band(e: Binary64, b: Biome) -> bool {
    &&& reaches(e, b)
    &&& match next_higher(b) {
        Some(up) => !reaches(e, up),
        None => true,
    }
}

/// The biome whose band holds the elevation.
pub open spec fn band_of(e: Binary64) -> Biome {
    if e.ge(level(LEVEL_0_95)) {
        Biome::HighMountain
    } else if e.ge(level(LEVEL_0_90)) {
        Biome::Mountain
    } else if e.ge(level(LEVEL_0_80)) {
        Biome::Forest
    } else if e.ge(level(LEVEL_0_70)) {
        Biome::Grass
    } else if e.ge(level(LEVEL_0_50)) {
        Biome::Sand
    } else if e.ge(level(LEVEL_0_20)) {
        Biome::Shore
    } else if e.ge(level(LEVEL_0_10)) {
        Biome::Water
    } else {
        Biome::DeepWater
    }
}

/// Sorts an elevation into the bands and gives the biome with its colour.
pub fn classify(elevation: Binary64) -> (r: (Biome, (u8, u8, u8)))
    ensures
        r.0 == band_of(elevation),
        r.1 == r.0.color(),
{
    let biome = if elevation.ge(Binary64 { bits: LEVEL_0_95 }) {
        Biome::HighMountain
    } else if elevation.ge(Binary64 { bits: LEVEL_0_90 }) {
        Biome::Mountain
    } else if elevation.ge(Binary64 { bits: LEVEL_0_80 }) {
        Biome::Forest
    } else if elevation.ge(Binary64 { bits: LEVEL_0_70 }) {
        Biome::Grass
    } else if elevation.ge(Binary64 { bits: LEVEL_0_50 }) {
        Biome::Sand
    } else if elevation.ge(Binary64 { bits: LEVEL_0_20 }) {
        Biome::Shore
    } else if elevation.ge(Binary64 { bits: LEVEL_0_10 }) {
        Biome::Water
    } else {
        Biome::DeepWater
    };
    (biome, get_biome(biome))
}

// ------------------------------------------------------- inverted bands

/// The elevation is above the floor that the biome has in the inverted
/// bands. There the high mountain has no floor.
pub open spec fn exceeds_inverted(e: Binary64, b: Biome) -> bool {
    match b {
        Biome::DeepWater => e.gt(level(LEVEL_0_99)),
        Biome::Water => e.gt(level(LEVEL_0_95)),
        Biome::Shore => e.gt(level(LEVEL_0_90)),
        Biome::Sand => e.gt(level(LEVEL_0_85)),
        Biome::Grass => e.gt(level(LEVEL_0_80)),
        Biome::Forest => e.gt(level(LEVEL_0_70)),
        Biome::Mountain => e.gt(level(LEVEL_0_65)),
        Biome::HighMountain => true,
    }
}

/// The elevation lies in the inverted band of the biome: above its floor
/// and not above the floor of the biome one rank down, whose band is the
/// next one up in elevation.
pub open spec fn in_inverted_band(e: Binary64, b: Biome) -> bool {
    &&& exceeds_inverted(e, b)
    &&& match next_lower(b) {
        Some(down) => !exceeds_inverted(e, down),
        None => true,
    }
}

/// The biome whose inverted band holds the elevation.
pub open spec fn inverted_band_of(e: Binary64) -> Biome {
    if e.gt(level(LEVEL_0_99)) {
        Biome::DeepWater
    } else if e.gt(level(LEVEL_0_95)) {
        Biome::Water
    } else if e.gt(level(LEVEL_0_90)) {
        Biome::Shore
    } else if e.gt(level(LEVEL_0_85)) {
        Biome::Sand
    } else if e.gt(level(LEVEL_0_80)) {
        Biome::Grass
    } else if e.gt(level(LEVEL_0_70)) {
        Biome::Forest
    } else if e.gt(level(LEVEL_0_65)) {
        Biome::Mountain
    } else {
        Biome::HighMountain
    }
}

/// Sorts an elevation into the inverted bands and gives the biome with its
/// colour.
pub fn classify_inverted(elevation: Binary64) -> (r: (Biome, (u8, u8, u8)))
    ensures
        r.0 == inverted_band_of(elevation),
        r.1 == r.0.color(),
{
    let biome = if elevation.gt(Binary64 { bits: LEVEL_0_99 }) {
        Biome::DeepWater
    } else if elevation.gt(Binary64 { bits: LEVEL_0_95 }) {
        Biome::Water
    } else if elevation.gt(Binary64 { bits: LEVEL_0_90 }) {
        Biome::Shore
    } else if elevation.gt(Binary64 { bits: LEVEL_0_85 }) {
        Biome::Sand
    } else if elevation.gt(Binary64 { bits: LEVEL_0_80 }) {
        Biome::Grass
    } else if elevation.gt(Binary64 { bits: LEVEL_0_70 }) {
        Biome::Forest
    } else if elevation.gt(Binary64 { bits: LEVEL_0_65 }) {
        Biome::Mountain
    } else {
        Biome::HighMountain
    };
    (biome, get_biome(biome))
}

// ------------------------------------------------------------ two tones

/// The tone of the elevation: water above one half, land otherwise.
pub open spec fn tone_of(e: Binary64) -> Tone {
    if e.gt(level(LEVEL_0_50)) {
        Tone::Water
    } else {
        Tone::Land
    }
}

/// The colour that a tone is painted in.
pub fn tone_color(tone: Tone) -> (color: (u8, u8, u8))
    ensures
        color == tone.color(),
{
    match tone {
        Tone::Water => (0, 0, 255),
        Tone::Land => (0, 255, 0),
    }
}

/// Sorts an elevation into the two tones and gives the tone with its colour.
pub fn classify_two_tone(elevation: Binary64) -> (r: (Tone, (u8, u8, u8)))
    ensures
        r.0 == tone_of(elevation),
        r.1 == r.0.color(),
{
    let tone = if elevation.gt(Binary64 { bits: LEVEL_0_50 }) {
        Tone::Water
    } else {
        Tone::Land
    };
    (tone, tone_color(tone))
}

// ------------------------------------------------------------ by policy

/// The colour of an elevation under a policy.
pub open spec fn color_under(policy: ClassificationPolicy, e: Binary64) -> (u8, u8, u8) {
    match policy {
        ClassificationPolicy::Bands => band_of(e).color(),
        ClassificationPolicy::InvertedBands => inverted_band_of(e).color(),
        ClassificationPolicy::TwoTone => tone_of(e).color(),
    }
}

/// The colour of an elevation under a policy.
pub fn pixel_color(policy: ClassificationPolicy, elevation: Binary64) -> (color: (u8, u8, u8))
    ensures
        color == color_under(policy, elevation),
{
    match policy {
        ClassificationPolicy::Bands => classify(elevation).1,
        ClassificationPolicy::InvertedBands => classify_inverted(elevation).1,
        ClassificationPolicy::TwoTone => classify_two_tone(elevation).1,
    }
}

// ----------------------------------------------------------------- laws

/// The floors stand in the order of their decimals, strictly between 0 and 1.
pub proof fn lemma_levels_ordered()
    ensures
        0 < level(LEVEL_0_10).scaled(),
        level(LEVEL_0_10).scaled() < level(LEVEL_0_20).scaled(),
        level(LEVEL_0_20).scaled() < level(LEVEL_0_50).scaled(),
        level(LEVEL_0_50).scaled() < level(LEVEL_0_65).scaled(),
        level(LEVEL_0_65).scaled() < level(LEVEL_0_70).scaled(),
        level(LEVEL_0_70).scaled() < level(LEVEL_0_80).scaled(),
        level(LEVEL_0_80).scaled() < level(LEVEL_0_85).scaled(),
        level(LEVEL_0_85).scaled() < level(LEVEL_0_90).scaled(),
        level(LEVEL_0_90).scaled() < level(LEVEL_0_95).scaled(),
        level(LEVEL_0_95).scaled() < level(LEVEL_0_99).scaled(),
        level(LEVEL_0_99).scaled() < pow2(1074),
{
    lemma_one_scaled();
    lemma_scaled_magnitude_increasing(level(0), level(LEVEL_0_10));
    lemma_scaled_magnitude_increasing(level(LEVEL_0_10), level(LEVEL_0_20));
    lemma_scaled_magnitude_increasing(level(LEVEL_0_20), level(LEVEL_0_50));
    lemma_scaled_magnitude_increasing(level(LEVEL_0_50), level(LEVEL_0_65));
    lemma_scaled_magnitude_increasing(level(LEVEL_0_65), level(LEVEL_0_70));
    lemma_scaled_magnitude_increasing(level(LEVEL_0_70), level(LEVEL_0_80));
    lemma_scaled_magnitude_increasing(level(LEVEL_0_80), level(LEVEL_0_85));
    lemma_scaled_magnitude_increasing(level(LEVEL_0_85), level(LEVEL_0_90));
    lemma_scaled_magnitude_increasing(level(LEVEL_0_90), level(LEVEL_0_95));
    lemma_scaled_magnitude_increasing(level(LEVEL_0_95), level(LEVEL_0_99));
    lemma_scaled_magnitude_increasing(level(LEVEL_0_99), level(ONE_BITS));
}

/// Each floor is the binary64 that its decimal rounds to: it lies within
/// half a unit in the last place of the decimal, and one half is exact.
pub proof fn lemma_levels_nearest()
    ensures
        level(LEVEL_0_10).within_half_ulp(10, 100),
        level(LEVEL_0_20).within_half_ulp(20, 100),
        level(LEVEL_0_50).denotes(50, 100),
        level(LEVEL_0_65).within_half_ulp(65, 100),
        level(LEVEL_0_70).within_half_ulp(70, 100),
        level(LEVEL_0_80).within_half_ulp(80, 100),
        level(LEVEL_0_85).within_half_ulp(85, 100),
        level(LEVEL_0_90).within_half_ulp(90, 100),
        level(LEVEL_0_95).within_half_ulp(95, 100),
        level(LEVEL_0_99).within_half_ulp(99, 100),
{
    lemma2_to64_rest();
    lemma_within_half_ulp(level(LEVEL_0_10), 10, 100, 56);
    lemma_within_half_ulp(level(LEVEL_0_20), 20, 100, 55);
    lemma_within_half_ulp(level(LEVEL_0_65), 65, 100, 53);
    lemma_within_half_ulp(level(LEVEL_0_70), 70, 100, 53);
    lemma_within_half_ulp(level(LEVEL_0_80), 80, 100, 53);
    lemma_within_half_ulp(level(LEVEL_0_85), 85, 100, 53);
    lemma_within_half_ulp(level(LEVEL_0_90), 90, 100, 53);
    lemma_within_half_ulp(level(LEVEL_0_95), 95, 100, 53);
    lemma_within_half_ulp(level(LEVEL_0_99), 99, 100, 53);
    let half = level(LEVEL_0_50);
    lemma_pow2_adds(53, 1021);
    assert(half.scaled() * 100 == 50 * pow2(1074)) by (nonlinear_arith)
        requires
            half.scaled() == 0x10_0000_0000_0000 * pow2(1021),
            pow2(1074) == 0x20_0000_0000_0000 * pow2(1021),
    ;
}

/// The bands part the elevations: every elevation, a NaN and a number
/// outside the unit interval too, lies in the band of exactly one biome.
pub proof fn lemma_bands_partition(e: Binary64, b: Biome)
    ensures
        in_band(e, b) <==> b == band_of(e),
{
    lemma_levels_ordered();
}

/// The inverted bands part the elevations in the same way.
pub proof fn lemma_inverted_bands_partition(e: Binary64, b: Biome)
    ensures
        in_inverted_band(e, b) <==> b == inverted_band_of(e),
{
    lemma_levels_ordered();
}

/// In the bands a higher elevation never gets a lower biome; in the inverted
/// bands it never gets a higher one; and in the two tones land never lies
/// above water.
pub proof fn lemma_bands_monotone(lo: Binary64, hi: Binary64)
    requires
        hi.ge(lo),
    ensures
        band_of(lo).rank() <= band_of(hi).rank(),
        inverted_band_of(lo).rank() >= inverted_band_of(hi).rank(),
        tone_of(lo) == Tone::Water ==> tone_of(hi) == Tone::Water,
{
}

/// A noise value and its elevation have the same colour under every policy:
/// clamping first changes nothing, and neither does counting a NaN as 0.
pub proof fn lemma_clamp_keeps_color(policy: ClassificationPolicy, e: Binary64)
    ensures
        band_of(clamped(e)) == band_of(e),
        inverted_band_of(clamped(e)) == inverted_band_of(e),
        tone_of(clamped(e)) == tone_of(e),
        color_under(policy, clamped(e)) == color_under(policy, e),
        color_under(policy, e.clamp_unit()) == color_under(policy, e),
{
    lemma_levels_ordered();
    lemma_one_scaled();
}

} // verus!
