//! Parameters of a fractal noise field that is sampled point by point, and
//! the generator that keeps them.
//!
//! A generator holds two sets of parameters: the settings, which the setters
//! edit, and the parameters of the noise field in use. Only `new` and
//! `update_generator` touch the second set, and they replace it as a whole by
//! the settings, after checking them. An edit therefore never reaches a field
//! half way: until the next rebuild the field is the old one.
//!
//! The field itself is computed in floating point, which this library holds
//! none of: a caller builds it from `noise_parameters`, samples it, and hands
//! each normalised sample in as its bits.

use crate::binary64::Binary64;
use crate::classify::{
    band_of, clamp_elevation, clamped, classify, lemma_clamp_keeps_color, ClassificationPolicy,
};
use crate::error::ConfigError;
use vstd::prelude::*;

verus! {

/// The parameters of a fractal noise field.
///
/// Each octave adds one layer of noise: the first at the given frequency,
/// weighted by the amplitude, every further one at `lacunarity` times the
/// frequency and `persistence` times the weight of the one before. A
/// coordinate is divided by the scale of its axis before the lookup, and the
/// bias is added to the sum.
#[derive(Clone, Copy, Debug, Eq)]
pub struct GeneratorSettings {
    pub octaves: i32,
    pub amplitude: Binary64,
    pub frequency: Binary64,
    pub persistence: Binary64,
    pub lacunarity: Binary64,
    pub scale: (Binary64, Binary64),
    pub bias: Binary64,
    pub seed: i32,
}

impl PartialEq for GeneratorSettings {
    fn eq(&self, other: &Self) -> (r: bool) {
        self.octaves == other.octaves && self.amplitude == other.amplitude && self.frequency
            == other.frequency && self.persistence == other.persistence && self.lacunarity
            == other.lacunarity && self.scale.0 == other.scale.0 && self.scale.1 == other.scale.1
            && self.bias == other.bias && self.seed == other.seed
    }
}

impl vstd::std_specs::cmp::PartialEqSpecImpl for GeneratorSettings {
    open spec fn obeys_eq_spec() -> bool {
        true
    }

    /// Two sets of parameters are equal where every parameter has the same
    /// bits in both.
    open spec fn eq_spec(&self, other: &Self) -> bool {
        self.octaves == other.octaves && self.amplitude == other.amplitude && self.frequency
            == other.frequency && self.persistence == other.persistence && self.lacunarity
            == other.lacunarity && self.scale.0 == other.scale.0 && self.scale.1 == other.scale.1
            && self.bias == other.bias && self.seed == other.seed
    }
}

impl GeneratorSettings {
    /// The first fault of the parameters, looked for in the order octaves,
    /// frequency, scale; `Ok` where a field can be built from them.
    pub open spec fn check(self) -> Result<(), ConfigError> {
        if self.octaves < 0 {
            Err(ConfigError::NegativeOctaves)
        } else if !self.frequency.finite() {
            Err(ConfigError::NonFiniteFrequency)
        } else if !self.scale.0.finite() || !self.scale.1.finite() {
            Err(ConfigError::NonFiniteScale)
        } else {
            Ok(())
        }
    }

    /// A field can be built from the parameters.
    pub open spec fn valid(self) -> bool {
        self.check() is Ok
    }

    /// The parameters as given; nothing is checked before a field is built.
    pub fn new(
        octaves: i32,
        amplitude: Binary64,
        frequency: Binary64,
        persistence: Binary64,
        lacunarity: Binary64,
        scale: (Binary64, Binary64),
        bias: Binary64,
        seed: i32,
    ) -> (settings: GeneratorSettings)
        ensures
            settings == (GeneratorSettings {
                octaves,
                amplitude,
                frequency,
                persistence,
                lacunarity,
                scale,
                bias,
                seed,
            }),
    {
        GeneratorSettings {
            octaves,
            amplitude,
            frequency,
            persistence,
            lacunarity,
            scale,
            bias,
            seed,
        }
    }

    /// Checks the parameters before a field is built from them.
    pub fn validate(&self) -> (r: Result<(), ConfigError>)
        ensures
            r == self.check(),
    {
        if self.octaves < 0 {
            Err(ConfigError::NegativeOctaves)
        } else if !self.frequency.is_finite() {
            Err(ConfigError::NonFiniteFrequency)
        } else if !self.scale.0.is_finite() || !self.scale.1.is_finite() {
            Err(ConfigError::NonFiniteScale)
        } else {
            Ok(())
        }
    }
}

/// The settings under edit together with the parameters of the noise field
/// in use.
pub struct Generator {
    settings: GeneratorSettings,
    noise_map: GeneratorSettings,
}

impl Generator {
    #[verifier::type_invariant]
    spec fn field_is_valid(self) -> bool {
        self.noise_map.valid()
    }

    /// The settings under edit.
    pub closed spec fn settings(self) -> GeneratorSettings {
        self.settings
    }

    /// The parameters that the noise field in use was built from.
    pub closed spec fn field(self) -> GeneratorSettings {
        self.noise_map
    }

    /// A generator whose field is built from the settings, or the fault that
    /// forbids building one.
    pub fn new(settings: GeneratorSettings) -> (r: Result<Generator, ConfigError>)
        ensures
            match r {
                Ok(g) => settings.valid() && g.settings() == settings && g.field() == settings,
                Err(e) => settings.check() == Err::<(), ConfigError>(e),
            },
    {
        match settings.validate() {
            Ok(()) => Ok(Generator { settings, noise_map: settings }),
            Err(e) => Err(e),
        }
    }

    /// The elevation of a pixel whose normalised noise value is `normalized`,
    /// by the clamped policy: it lies between 0 and 1.
    pub fn get_noise_value(&self, normalized: Binary64) -> (elevation: Binary64)
        ensures
            elevation == clamped(normalized),
            elevation.in_unit_interval(),
            normalized.in_unit_interval() ==> elevation == normalized,
    {
        clamp_elevation(normalized)
    }

    /// The colour of a pixel whose normalised noise value is `noise`: that
    /// of the band which holds its elevation.
    pub fn get_pixel_color(&self, noise: Binary64) -> (color: (u8, u8, u8))
        ensures
            color == band_of(clamped(noise)).color(),
            color == band_of(noise).color(),
    {
        proof {
            lemma_clamp_keeps_color(ClassificationPolicy::Bands, noise);
        }
        classify(self.get_noise_value(noise)).1
    }

    /// Edits the number of octaves; the field in use stays as it is.
    pub fn set_octaves(&mut self, octaves: i32)
        ensures
            final(self).settings() == (GeneratorSettings { octaves, ..old(self).settings() }),
            final(self).field() == old(self).field(),
    {
        proof {
            use_type_invariant(&*self);
        }
        self.settings.octaves = octaves;
    }

    /// Edits the frequency; the field in use stays as it is.
    pub fn set_frequency(&mut self, frequency: Binary64)
        ensures
            final(self).settings() == (GeneratorSettings { frequency, ..old(self).settings() }),
            final(self).field() == old(self).field(),
    {
        proof {
            use_type_invariant(&*self);
        }
        self.settings.frequency = frequency;
    }

    /// Edits the persistence; the field in use stays as it is.
    pub fn set_persistence(&mut self, persistence: Binary64)
        ensures
            final(self).settings() == (GeneratorSettings { persistence, ..old(self).settings() }),
            final(self).field() == old(self).field(),
    {
        proof {
            use_type_invariant(&*self);
        }
        self.settings.persistence = persistence;
    }

    /// Edits the lacunarity; the field in use stays as it is.
    pub fn set_lacunarity(&mut self, lacunarity: Binary64)
        ensures
            final(self).settings() == (GeneratorSettings { lacunarity, ..old(self).settings() }),
            final(self).field() == old(self).field(),
    {
        proof {
            use_type_invariant(&*self);
        }
        self.settings.lacunarity = lacunarity;
    }

    /// Edits the scales of the two axes; the field in use stays as it is.
    pub fn set_scale(&mut self, scale: (Binary64, Binary64))
        ensures
            final(self).settings() == (GeneratorSettings { scale, ..old(self).settings() }),
            final(self).field() == old(self).field(),
    {
        proof {
            use_type_invariant(&*self);
        }
        self.settings.scale = scale;
    }

    /// Edits the bias; the field in use stays as it is.
    pub fn set_bias(&mut self, bias: Binary64)
        ensures
            final(self).settings() == (GeneratorSettings { bias, ..old(self).settings() }),
            final(self).field() == old(self).field(),
    {
        proof {
            use_type_invariant(&*self);
        }
        self.settings.bias = bias;
    }

    /// Edits the seed; the field in use stays as it is.
    pub fn set_seed(&mut self, seed: i32)
        ensures
            final(self).settings() == (GeneratorSettings { seed, ..old(self).settings() }),
            final(self).field() == old(self).field(),
    {
        proof {
            use_type_invariant(&*self);
        }
        self.settings.seed = seed;
    }

    /// Rebuilds the field from the settings. Where the settings are faulty
    /// the fault is returned and the field in use stays.
    pub fn update_generator(&mut self) -> (r: Result<(), ConfigError>)
        ensures
            final(self).settings() == old(self).settings(),
            r == old(self).settings().check(),
            r is Ok ==> final(self).field() == old(self).settings(),
            r is Err ==> final(self).field() == old(self).field(),
    {
        proof {
            use_type_invariant(&*self);
        }
        match self.settings.validate() {
            Ok(()) => {
                self.noise_map = self.settings;
                Ok(())
            },
            Err(e) => Err(e),
        }
    }

    /// The settings under edit.
    pub fn get_settings(&self) -> (settings: GeneratorSettings)
        ensures
            settings == self.settings(),
    {
        self.settings
    }

    /// The parameters of the field in use: those to sample with.
    pub fn noise_parameters(&self) -> (parameters: GeneratorSettings)
        ensures
            parameters == self.field(),
            parameters.valid(),
    {
        proof {
            use_type_invariant(self);
        }
        self.noise_map
    }

    /// Whether the settings were edited since the field was built, so that a
    /// sample would not show them.
    pub fn is_stale(&self) -> (stale: bool)
        ensures
            stale == (self.settings() != self.field()),
    {
        self.settings != self.noise_map
    }
}

/// A change of seed followed by a rebuild reaches the field whole: with
/// `edited` as `set_seed` leaves a generator and `rebuilt` as a successful
/// `update_generator` leaves it then, the field of `rebuilt` has the new seed
/// and every other parameter from the settings of `before`, and it is
/// another field than that of `before` wherever the seed is another.
pub proof fn lemma_rebuild_takes_seed(
    before: Generator,
    edited: Generator,
    rebuilt: Generator,
    seed: i32,
)
    requires
        edited.settings() == (GeneratorSettings { seed, ..before.settings() }),
        edited.field() == before.field(),
        rebuilt.settings() == edited.settings(),
        rebuilt.field() == edited.settings(),
    ensures
        rebuilt.field() == (GeneratorSettings { seed, ..before.settings() }),
        rebuilt.field() == rebuilt.settings(),
        seed != before.field().seed ==> rebuilt.field() != before.field(),
{
}

} // verus!
