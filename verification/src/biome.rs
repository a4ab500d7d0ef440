//! The biomes of an island map and the colour each is painted in.

use vstd::prelude::*;

verus! {

/// A terrain band, from the sea floor up to the summits.
#[derive(Clone, Copy, Debug, PartialEq, Eq, Structural)]
pub enum Biome {
    DeepWater,
    Water,
    Shore,
    Sand,
    Grass,
    Forest,
    Mountain,
    HighMountain,
}

impl Biome {
    /// The red, green and blue channel of the biome's colour.
    pub open spec fn color(self) -> (u8, u8, u8) {
        match self {
            Biome::DeepWater => (28, 2, 198),
            Biome::Water => (14, 76, 156),
            Biome::Shore => (13, 108, 181),
            Biome::Sand => (229, 232, 135),
            Biome::Grass => (36, 159, 61),
            Biome::Forest => (19, 112, 38),
            Biome::Mountain => (128, 144, 143),
            Biome::HighMountain => (146, 179, 177),
        }
    }

    /// The biome's place in the order of elevation: 0 for the deep water,
    /// 7 for the high mountains.
    pub open spec fn rank(self) -> int {
        match self {
            Biome::DeepWater => 0,
            Biome::Water => 1,
            Biome::Shore => 2,
            Biome::Sand => 3,
            Biome::Grass => 4,
            Biome::Forest => 5,
            Biome::Mountain => 6,
            Biome::HighMountain => 7,
        }
    }
}

/// The colour that a biome is painted in.
pub fn get_biome(biome: Biome) -> (color: (u8, u8, u8))
    ensures
        color == biome.color(),
{
    match biome {
        Biome::DeepWater => (28, 2, 198),
        Biome::Water => (14, 76, 156),
        Biome::Shore => (13, 108, 181),
        Biome::Sand => (229, 232, 135),
        Biome::Grass => (36, 159, 61),
        Biome::Forest => (19, 112, 38),
        Biome::Mountain => (128, 144, 143),
        Biome::HighMountain => (146, 179, 177),
    }
}

/// No two biomes share a colour: a pixel tells its biome.
pub proof fn lemma_colors_distinct(a: Biome, b: Biome)
    requires
        a.color() == b.color(),
    ensures
        a == b,
{
}

/// No two biomes share a rank, and the ranks run from 0 to 7.
pub proof fn lemma_ranks_distinct(a: Biome, b: Biome)
    ensures
        0 <= a.rank() <= 7,
        a.rank() == b.rank() ==> a == b,
{
}

} // verus!
