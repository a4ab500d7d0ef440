//! The generator of whole maps: a noise map painted into a pixel buffer.
//!
//! The buffer holds the pixels one after the other, each as three or four
//! bytes. The first coordinate is the slow one: the pixel of the point
//! `(i, j)` is the pixel number `i * height + j`.

use crate::binary64::{lemma_within_half_ulp, Binary64, ONE_BITS};
use crate::classify::{
    clamp_elevation, clamped, color_under, lemma_clamp_keeps_color, pixel_color,
    ClassificationPolicy,
};
use crate::error::ConfigError;
use crate::noise_map::{map_size, NoiseMap, RASTER_MAX};
use vstd::arithmetic::div_mod::lemma_fundamental_div_mod_converse;
use vstd::arithmetic::power2::*;
use vstd::prelude::*;

verus! {

/// The binary64 nearest to 4.2.
pub const DEFAULT_FREQUENCY: u64 = 0x4010_CCCC_CCCC_CCCD;

/// 1.5.
pub const DEFAULT_PERSISTENCE: u64 = 0x3FF8_0000_0000_0000;

/// The binary64 nearest to 1.2.
pub const DEFAULT_LACUNARITY: u64 = 0x3FF3_3333_3333_3333;

/// The fourth byte of a pixel that has one.
pub const ALPHA: u8 = 1;

/// The side of a square texture.
#[derive(Clone, Copy, Debug, PartialEq, Eq, Structural)]
pub enum TextureQuality {
    VeryHigh,
    High,
    Medium,
    Low,
    VeryLow,
}

impl TextureQuality {
    /// The number of pixels along a side.
    pub open spec fn side(self) -> usize {
        match self {
            TextureQuality::VeryHigh => 2048,
            TextureQuality::High => 1024,
            TextureQuality::Medium => 512,
            TextureQuality::Low => 256,
            TextureQuality::VeryLow => 128,
        }
    }

    /// The number of pixels along a side.
    pub fn resolution(self) -> (side: usize)
        ensures
            side == self.side(),
            0 < side < RASTER_MAX,
    {
        match self {
            TextureQuality::VeryHigh => 2048,
            TextureQuality::High => 1024,
            TextureQuality::Medium => 512,
            TextureQuality::Low => 256,
            TextureQuality::VeryLow => 128,
        }
    }
}

/// The parameters of a noise map: the size of the grid, and the fractal
/// noise that fills it. The noise is multiplied by the scale and the bias is
/// added before it is limited to the interval from 0 to 1.
#[derive(Clone, Copy, Debug, Eq)]
pub struct NoiseSettings {
    pub dimensions: (usize, usize),
    pub octaves: usize,
    pub frequency: Binary64,
    pub persistence: Binary64,
    pub lacunarity: Binary64,
    pub scale: Binary64,
    pub bias: Binary64,
    pub seed: u32,
}

impl PartialEq for NoiseSettings {
    fn eq(&self, other: &Self) -> (r: bool) {
        self.dimensions.0 == other.dimensions.0 && self.dimensions.1 == other.dimensions.1
            && self.octaves == other.octaves && self.frequency == other.frequency
            && self.persistence == other.persistence && self.lacunarity == other.lacunarity
            && self.scale == other.scale && self.bias == other.bias && self.seed == other.seed
    }
}

impl vstd::std_specs::cmp::PartialEqSpecImpl for NoiseSettings {
    open spec fn obeys_eq_spec() -> bool {
        true
    }

    /// Two sets of parameters are equal where every parameter has the same
    /// bits in both.
    open spec fn eq_spec(&self, other: &Self) -> bool {
        self.dimensions.0 == other.dimensions.0 && self.dimensions.1 == other.dimensions.1
            && self.octaves == other.octaves && self.frequency == other.frequency
            && self.persistence == other.persistence && self.lacunarity == other.lacunarity
            && self.scale == other.scale && self.bias == other.bias && self.seed == other.seed
    }
}

impl NoiseSettings {
    /// A grid of 512 by 512 points, six octaves at the frequency 4.2,
    /// persistence 1.5, lacunarity 1.2, scale 1, bias 0 and seed 9000.
    pub open spec fn standard() -> NoiseSettings {
        NoiseSettings {
            dimensions: (512, 512),
            octaves: 6,
            frequency: Binary64 { bits: DEFAULT_FREQUENCY },
            persistence: Binary64 { bits: DEFAULT_PERSISTENCE },
            lacunarity: Binary64 { bits: DEFAULT_LACUNARITY },
            scale: Binary64 { bits: ONE_BITS },
            bias: Binary64 { bits: 0 },
            seed: 9000,
        }
    }

    /// The first fault of the parameters, looked for in the order frequency,
    /// scale, dimensions; `Ok` where a map can be built from them.
    pub open spec fn check(self) -> Result<(), ConfigError> {
        if !self.frequency.finite() {
            Err(ConfigError::NonFiniteFrequency)
        } else if !self.scale.finite() {
            Err(ConfigError::NonFiniteScale)
        } else if self.dimensions.0 >= RASTER_MAX || self.dimensions.1 >= RASTER_MAX {
            Err(ConfigError::MapSize)
        } else {
            Ok(())
        }
    }

    /// A map can be built from the parameters.
    pub open spec fn valid(self) -> bool {
        self.check() is Ok
    }

    /// Checks the parameters before a map is built from them.
    pub fn validate(&self) -> (r: Result<(), ConfigError>)
        ensures
            r == self.check(),
    {
        if !self.frequency.is_finite() {
            Err(ConfigError::NonFiniteFrequency)
        } else if !self.scale.is_finite() {
            Err(ConfigError::NonFiniteScale)
        } else if self.dimensions.0 >= RASTER_MAX || self.dimensions.1 >= RASTER_MAX {
            Err(ConfigError::MapSize)
        } else {
            Ok(())
        }
    }
}

impl Default for NoiseSettings {
    fn default() -> (settings: NoiseSettings)
        ensures
            settings == NoiseSettings::standard(),
            settings.valid(),
    {
        NoiseSettings {
            dimensions: (512, 512),
            octaves: 6,
            frequency: Binary64 { bits: DEFAULT_FREQUENCY },
            persistence: Binary64 { bits: DEFAULT_PERSISTENCE },
            lacunarity: Binary64 { bits: DEFAULT_LACUNARITY },
            scale: Binary64 { bits: ONE_BITS },
            bias: Binary64 { bits: 0 },
            seed: 9000,
        }
    }
}

/// The layout of a pixel in the buffer.
#[derive(Clone, Copy, Debug, PartialEq, Eq, Structural)]
pub enum PixelFormat {
    /// Red, green, blue.
    Rgb,
    /// Red, green, blue, and a fourth byte that is always `ALPHA`.
    Rgba,
}

impl PixelFormat {
    /// The number of bytes of a pixel.
    pub open spec fn channels(self) -> int {
        match self {
            PixelFormat::Rgb => 3,
            PixelFormat::Rgba => 4,
        }
    }
}

/// The byte number `c` of a pixel of the given colour.
pub open spec fn channel_of(color: (u8, u8, u8), c: int) -> u8 {
    if c == 0 {
        color.0
    } else if c == 1 {
        color.1
    } else if c == 2 {
        color.2
    } else {
        ALPHA
    }
}

/// A noise map together with the width and height that it was asked for.
pub struct Generator {
    noise_map: NoiseMap,
    width: usize,
    height: usize,
}

impl Generator {
    #[verifier::type_invariant]
    spec fn map_fits(self) -> bool {
        &&& self.width < RASTER_MAX
        &&& self.height < RASTER_MAX
        &&& self.noise_map.size() == map_size(self.width, self.height)
    }

    /// The number of points along the first coordinate.
    pub closed spec fn width(self) -> usize {
        self.width
    }

    /// The number of points along the second coordinate.
    pub closed spec fn height(self) -> usize {
        self.height
    }

    /// The noise map that is painted.
    pub closed spec fn map(self) -> NoiseMap {
        self.noise_map
    }

    /// The byte number `k` of the buffer: pixel `k / channels`, whose point
    /// has that number's quotient by the height as its first coordinate and
    /// the remainder as its second.
    pub open spec fn byte_at(self, policy: ClassificationPolicy, format: PixelFormat, k: int) -> u8 {
        let pixel = k / format.channels();
        let i = pixel / (self.height() as int);
        let j = pixel % (self.height() as int);
        channel_of(color_under(policy, self.map().value_at(i, j)), k % format.channels())
    }

    /// The buffer that `render` gives.
    pub open spec fn rendered(self, policy: ClassificationPolicy, format: PixelFormat) -> Seq<u8> {
        Seq::new(
            (self.width() * self.height() * format.channels()) as nat,
            |k: int| self.byte_at(policy, format, k),
        )
    }

    /// A generator over a map that was built from the parameters. It is
    /// refused where the parameters are faulty, and where the map has not the
    /// size that they ask for.
    pub fn new(settings: &NoiseSettings, noise_map: NoiseMap) -> (r: Result<Generator, ConfigError>)
        ensures
            match r {
                Ok(g) => {
                    &&& settings.valid()
                    &&& noise_map.size() == map_size(settings.dimensions.0, settings.dimensions.1)
                    &&& g.width() == settings.dimensions.0
                    &&& g.height() == settings.dimensions.1
                    &&& g.map() == noise_map
                },
                Err(e) => if settings.valid() {
                    e == ConfigError::MapSize && noise_map.size() != map_size(
                        settings.dimensions.0,
                        settings.dimensions.1,
                    )
                } else {
                    settings.check() == Err::<(), ConfigError>(e)
                },
            },
    {
        match settings.validate() {
            Ok(()) => {},
            Err(e) => {
                return Err(e);
            },
        }
        let (width, height) = settings.dimensions;
        let expected: (usize, usize) = if width == 0 || height == 0 {
            (0, 0)
        } else {
            (width, height)
        };
        let size = noise_map.get_size();
        if size.0 != expected.0 || size.1 != expected.1 {
            return Err(ConfigError::MapSize);
        }
        Ok(Generator { noise_map, width, height })
    }

    /// The width and the height that the map was asked for. Both are below
    /// the bound, and the map has the size that they give.
    pub fn dimensions(&self) -> (d: (usize, usize))
        ensures
            d == (self.width(), self.height()),
            d.0 < RASTER_MAX,
            d.1 < RASTER_MAX,
            self.map().size() == map_size(d.0, d.1),
    {
        proof {
            use_type_invariant(self);
        }
        (self.width, self.height)
    }

    /// The elevation of a point: the value that the map has there, or its
    /// border value outside the grid, by the clamped policy. It lies between
    /// 0 and 1, and is the map's value as it is where that does.
    pub fn get_noise_value(&self, pixel: (usize, usize)) -> (value: Binary64)
        ensures
            value == clamped(self.map().value_at(pixel.0 as int, pixel.1 as int)),
            value.in_unit_interval(),
    {
        clamp_elevation(self.noise_map.get_value(pixel.0, pixel.1))
    }

    /// The colour of a point under the bands.
    pub fn get_pixel_color(&self, pixel: (usize, usize)) -> (color: (u8, u8, u8))
        ensures
            color == color_under(
                ClassificationPolicy::Bands,
                self.map().value_at(pixel.0 as int, pixel.1 as int),
            ),
    {
        proof {
            lemma_clamp_keeps_color(
                ClassificationPolicy::Bands,
                self.map().value_at(pixel.0 as int, pixel.1 as int),
            );
        }
        pixel_color(ClassificationPolicy::Bands, self.get_noise_value(pixel))
    }

    /// Paints every point of the grid once, under the given policy and in
    /// the given format: the colour of a point is that of its elevation.
    pub fn render(&self, policy: ClassificationPolicy, format: PixelFormat) -> (buffer: Vec<u8>)
        ensures
            buffer@ == self.rendered(policy, format),
    {
        let width = self.width;
        let height = self.height;
        let ghost ch = format.channels();
        let mut buffer: Vec<u8> = Vec::new();
        let mut i: usize = 0;
        while i < width
            invariant
                i <= width,
                width == self.width(),
                height == self.height(),
                ch == format.channels(),
                buffer.len() == i * height * ch,
                forall|k: int| 0 <= k < buffer.len() ==> buffer[k] == self.byte_at(policy, format, k),
            decreases width - i,
        {
            let mut j: usize = 0;
            while j < height
                invariant
                    i < width,
                    j <= height,
                    width == self.width(),
                    height == self.height(),
                    ch == format.channels(),
                    buffer.len() == (i * height + j) * ch,
                    forall|k: int|
                        0 <= k < buffer.len() ==> buffer[k] == self.byte_at(policy, format, k),
                decreases height - j,
            {
                let noise = self.noise_map.get_value(i, j);
                let color = pixel_color(policy, clamp_elevation(noise));
                proof {
                    lemma_clamp_keeps_color(policy, noise);
                    lemma_fundamental_div_mod_converse(
                        i * height + j,
                        height as int,
                        i as int,
                        j as int,
                    );
                }
                buffer.push(color.0);
                buffer.push(color.1);
                buffer.push(color.2);
                match format {
                    PixelFormat::Rgb => {},
                    PixelFormat::Rgba => {
                        buffer.push(ALPHA);
                    },
                }
                j += 1;
            }
            i += 1;
            assert(i * height * ch == ((i - 1) * height + height) * ch) by (nonlinear_arith);
        }
        buffer
    }

    /// Paints the map under the bands, four bytes to the pixel.
    pub fn get_noise_map_vec_rgba_8_u_norm(&self) -> (buffer: Vec<u8>)
        ensures
            buffer@ == self.rendered(ClassificationPolicy::Bands, PixelFormat::Rgba),
    {
        self.render(ClassificationPolicy::Bands, PixelFormat::Rgba)
    }
}

/// The standard parameters are the binary64 numbers that their decimals
/// round to, and exact where the decimal is a binary fraction.
pub proof fn lemma_standard_settings()
    ensures
        NoiseSettings::standard().frequency.within_half_ulp(42, 10),
        NoiseSettings::standard().persistence.denotes(3, 2),
        NoiseSettings::standard().lacunarity.within_half_ulp(12, 10),
        NoiseSettings::standard().scale.denotes(1, 1),
        NoiseSettings::standard().bias.denotes(0, 1),
{
    let s = NoiseSettings::standard();
    lemma2_to64_rest();
    lemma_within_half_ulp(s.frequency, 42, 10, 50);
    lemma_within_half_ulp(s.lacunarity, 12, 10, 52);
    lemma_pow2_adds(52, 1022);
    assert(s.persistence.scaled() * 2 == 3 * pow2(1074)) by (nonlinear_arith)
        requires
            s.persistence.scaled() == 0x18_0000_0000_0000 * pow2(1022),
            pow2(1074) == 0x10_0000_0000_0000 * pow2(1022),
    ;
}

/// Where the bytes of a point stand in the buffer: the byte number `c` of
/// the point `(i, j)` is the byte number `(i * height + j) * channels + c`,
/// and the buffer has room for exactly the points of the grid.
pub proof fn lemma_rendered_pixel(
    g: Generator,
    policy: ClassificationPolicy,
    format: PixelFormat,
    i: int,
    j: int,
    c: int,
)
    requires
        0 <= i < g.width(),
        0 <= j < g.height(),
        0 <= c < format.channels(),
    ensures
        g.rendered(policy, format).len() == g.width() * g.height() * format.channels(),
        0 <= (i * g.height() + j) * format.channels() + c < g.rendered(policy, format).len(),
        g.rendered(policy, format)[(i * g.height() + j) * format.channels() + c] == channel_of(
            color_under(policy, g.map().value_at(i, j)),
            c,
        ),
{
    let h = g.height() as int;
    let w = g.width() as int;
    let ch = format.channels();
    let pixel = i * h + j;
    lemma_fundamental_div_mod_converse(pixel, h, i, j);
    assert(pixel + 1 <= w * h) by (nonlinear_arith)
        requires
            pixel == i * h + j,
            0 <= i < w,
            0 <= j < h,
    ;
}

} // verus!
