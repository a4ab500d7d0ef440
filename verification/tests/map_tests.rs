use island_map_generator::binary64::Binary64;
use island_map_generator::classify::ClassificationPolicy;
use island_map_generator::error::ConfigError;
use island_map_generator::map_generator::{
    Generator, NoiseSettings, PixelFormat, TextureQuality, ALPHA, DEFAULT_FREQUENCY,
    DEFAULT_LACUNARITY, DEFAULT_PERSISTENCE,
};
use island_map_generator::noise_map::{NoiseMap, RASTER_MAX};
use noise::utils::PlaneMapBuilder;
use noise::{Clamp, Fbm, MultiFractal, NoiseFn, Perlin, ScaleBias};

fn b(x: f64) -> Binary64 {
    Binary64::from_bits(x.to_bits())
}

fn f(x: Binary64) -> f64 {
    f64::from_bits(x.to_bits())
}

/// The noise map that the parameters describe, filled by the noise crate.
fn noise_map(s: &NoiseSettings) -> NoiseMap {
    let fbm = Fbm::<Perlin>::new(s.seed)
        .set_octaves(s.octaves)
        .set_frequency(f(s.frequency))
        .set_persistence(f(s.persistence))
        .set_lacunarity(f(s.lacunarity));
    let scale_bias: ScaleBias<f64, Fbm<Perlin>, 2> =
        ScaleBias::new(fbm).set_scale(f(s.scale)).set_bias(f(s.bias));
    let clamp: Clamp<f64, ScaleBias<f64, Fbm<Perlin>, 2>, 2> =
        Clamp::new(scale_bias).set_lower_bound(0.0).set_upper_bound(1.0);
    let (w, h) = s.dimensions;
    let map = PlaneMapBuilder::new_fn(move |point: [f64; 2]| clamp.get(point))
        .set_size(w, h)
        .set_x_bounds(0.0, 1.0)
        .set_y_bounds(0.0, 1.0)
        .build();
    let (width, height) = map.size();
    let border = b(map.border_value());
    let values: Vec<Binary64> = map.iter().map(|v| b(*v)).collect();
    NoiseMap::new(width, height, border, values).unwrap()
}

fn generator(s: &NoiseSettings) -> Generator {
    Generator::new(s, noise_map(s)).unwrap()
}

fn sized(width: usize, height: usize) -> NoiseSettings {
    let mut s = NoiseSettings::default();
    s.dimensions = (width, height);
    s
}

fn small_map() -> (NoiseSettings, Generator) {
    // two points along the first coordinate, three along the second
    let values = vec![b(0.05), b(0.97), b(0.15), b(0.6), b(0.75), b(0.3)];
    let s = sized(2, 3);
    let map = NoiseMap::new(2, 3, b(0.0), values).unwrap();
    (s, Generator::new(&s, map).unwrap())
}

#[test]
fn lib_noise_betwen_zero_and_one() {
    let generator = generator(&NoiseSettings::default());
    let noise = f(generator.get_noise_value((10, 15)));

    assert!(noise >= 0.0 && noise <= 1.0);
}

#[test]
fn standard_settings() {
    let s = NoiseSettings::default();
    assert_eq!(s.dimensions, (512, 512));
    assert_eq!(s.octaves, 6);
    assert_eq!(f(s.frequency), 4.2);
    assert_eq!(f(s.persistence), 1.5);
    assert_eq!(f(s.lacunarity), 1.2);
    assert_eq!(f(s.scale), 1.0);
    assert_eq!(s.bias.to_bits(), 0.0_f64.to_bits());
    assert_eq!(s.seed, 9000);
    assert_eq!(DEFAULT_FREQUENCY, 4.2_f64.to_bits());
    assert_eq!(DEFAULT_PERSISTENCE, 1.5_f64.to_bits());
    assert_eq!(DEFAULT_LACUNARITY, 1.2_f64.to_bits());
    assert_eq!(s.validate(), Ok(()));
}

#[test]
fn texture_sides() {
    assert_eq!(TextureQuality::VeryHigh.resolution(), 2048);
    assert_eq!(TextureQuality::High.resolution(), 1024);
    assert_eq!(TextureQuality::Medium.resolution(), 512);
    assert_eq!(TextureQuality::Low.resolution(), 256);
    assert_eq!(TextureQuality::VeryLow.resolution(), 128);
}

#[test]
fn noise_settings_faults() {
    let mut s = NoiseSettings::default();
    s.dimensions = (RASTER_MAX, 4);
    assert_eq!(s.validate(), Err(ConfigError::MapSize));
    s.dimensions = (4, RASTER_MAX);
    assert_eq!(s.validate(), Err(ConfigError::MapSize));
    s.dimensions = (RASTER_MAX - 1, RASTER_MAX - 1);
    assert_eq!(s.validate(), Ok(()));
    s.scale = b(f64::NAN);
    assert_eq!(s.validate(), Err(ConfigError::NonFiniteScale));
    s.dimensions = (RASTER_MAX, 4);
    assert_eq!(s.validate(), Err(ConfigError::NonFiniteScale));
    s.frequency = b(f64::NEG_INFINITY);
    assert_eq!(s.validate(), Err(ConfigError::NonFiniteFrequency));
}

#[test]
fn noise_map_refuses_a_wrong_number_of_values() {
    assert!(matches!(NoiseMap::new(2, 3, b(0.0), vec![b(0.5); 5]), Err(ConfigError::MapSize)));
    assert!(matches!(NoiseMap::new(2, 3, b(0.0), vec![b(0.5); 7]), Err(ConfigError::MapSize)));
    assert!(matches!(NoiseMap::new(0, 3, b(0.0), vec![b(0.5); 3]), Err(ConfigError::MapSize)));
    assert!(matches!(
        NoiseMap::new(RASTER_MAX, 0, b(0.0), Vec::new()),
        Err(ConfigError::MapSize)
    ));
    assert!(matches!(
        NoiseMap::new(0, RASTER_MAX, b(0.0), Vec::new()),
        Err(ConfigError::MapSize)
    ));
    assert!(NoiseMap::new(2, 3, b(0.0), vec![b(0.5); 6]).is_ok());
}

#[test]
fn noise_map_with_an_empty_side_is_empty() {
    let map = NoiseMap::new(5, 0, b(0.25), Vec::new()).unwrap();
    assert_eq!(map.get_size(), (0, 0));
    assert_eq!(map.get_value(0, 0), b(0.25));
    let map = NoiseMap::new(0, 9, b(0.25), Vec::new()).unwrap();
    assert_eq!(map.get_size(), (0, 0));
}

#[test]
fn noise_map_values_by_point() {
    let values: Vec<Binary64> = (0..6).map(|k| b(k as f64 / 10.0)).collect();
    let map = NoiseMap::new(2, 3, b(9.0), values).unwrap();
    assert_eq!(map.get_size(), (2, 3));
    assert_eq!(map.border_value(), b(9.0));
    assert_eq!(map.get_value(0, 0), b(0.0));
    assert_eq!(map.get_value(1, 0), b(0.1));
    assert_eq!(map.get_value(0, 1), b(0.2));
    assert_eq!(map.get_value(1, 1), b(0.3));
    assert_eq!(map.get_value(0, 2), b(0.4));
    assert_eq!(map.get_value(1, 2), b(0.5));
    assert_eq!(map.get_value(2, 0), b(9.0));
    assert_eq!(map.get_value(0, 3), b(9.0));
    assert_eq!(map.get_value(usize::MAX, usize::MAX), b(9.0));
}

#[test]
fn noise_map_agrees_with_the_noise_crate() {
    let s = sized(7, 5);
    let theirs = {
        let fbm = Fbm::<Perlin>::new(s.seed)
            .set_octaves(s.octaves)
            .set_frequency(f(s.frequency))
            .set_persistence(f(s.persistence))
            .set_lacunarity(f(s.lacunarity));
        PlaneMapBuilder::new_fn(move |point: [f64; 2]| fbm.get(point).clamp(0.0, 1.0))
            .set_size(7, 5)
            .set_x_bounds(0.0, 1.0)
            .set_y_bounds(0.0, 1.0)
            .build()
    };
    let ours = noise_map(&s);
    assert_eq!(ours.get_size(), theirs.size());
    for x in 0..9 {
        for y in 0..7 {
            assert_eq!(ours.get_value(x, y).to_bits(), theirs.get_value(x, y).to_bits());
        }
    }
}

#[test]
fn generator_refuses_faulty_parameters() {
    let mut s = sized(2, 3);
    s.frequency = b(f64::NAN);
    let map = NoiseMap::new(2, 3, b(0.0), vec![b(0.5); 6]).unwrap();
    assert!(matches!(Generator::new(&s, map), Err(ConfigError::NonFiniteFrequency)));
    let mut s = sized(2, 3);
    s.scale = b(f64::INFINITY);
    let map = NoiseMap::new(2, 3, b(0.0), vec![b(0.5); 6]).unwrap();
    assert!(matches!(Generator::new(&s, map), Err(ConfigError::NonFiniteScale)));
    let s = sized(RASTER_MAX, 3);
    let map = NoiseMap::new(2, 3, b(0.0), vec![b(0.5); 6]).unwrap();
    assert!(matches!(Generator::new(&s, map), Err(ConfigError::MapSize)));
}

#[test]
fn generator_refuses_a_map_of_another_size() {
    let s = sized(3, 2);
    let map = NoiseMap::new(2, 3, b(0.0), vec![b(0.5); 6]).unwrap();
    assert!(matches!(Generator::new(&s, map), Err(ConfigError::MapSize)));
    let s = sized(0, 2);
    let map = NoiseMap::new(2, 3, b(0.0), vec![b(0.5); 6]).unwrap();
    assert!(matches!(Generator::new(&s, map), Err(ConfigError::MapSize)));
    let s = sized(0, 2);
    let map = NoiseMap::new(0, 0, b(0.0), Vec::new()).unwrap();
    assert!(Generator::new(&s, map).is_ok());
}

#[test]
fn noise_value_and_color_of_a_point() {
    let (_, g) = small_map();
    // the point (x, y) reads the value number x + y * 2
    assert_eq!(g.get_noise_value((0, 0)), b(0.05));
    assert_eq!(g.get_noise_value((1, 0)), b(0.97));
    assert_eq!(g.get_noise_value((0, 1)), b(0.15));
    assert_eq!(g.get_noise_value((1, 2)), b(0.3));
    assert_eq!(g.get_noise_value((2, 0)), b(0.0));
    assert_eq!(g.get_pixel_color((0, 0)), (28, 2, 198));
    assert_eq!(g.get_pixel_color((1, 0)), (146, 179, 177));
    assert_eq!(g.get_pixel_color((1, 1)), (229, 232, 135));
    assert_eq!(g.get_pixel_color((0, 2)), (36, 159, 61));
}

#[test]
fn rgba_buffer_of_a_small_map() {
    let (_, g) = small_map();
    let buffer = g.get_noise_map_vec_rgba_8_u_norm();
    let want: Vec<u8> = vec![
        28, 2, 198, 1, // (0, 0): 0.05
        14, 76, 156, 1, // (0, 1): 0.15
        36, 159, 61, 1, // (0, 2): 0.75
        146, 179, 177, 1, // (1, 0): 0.97
        229, 232, 135, 1, // (1, 1): 0.6
        13, 108, 181, 1, // (1, 2): 0.3
    ];
    assert_eq!(buffer, want);
    assert_eq!(g.render(ClassificationPolicy::Bands, PixelFormat::Rgba), want);
    assert_eq!(ALPHA, 1);
}

#[test]
fn rgb_buffer_of_a_small_map() {
    let (_, g) = small_map();
    let want: Vec<u8> = vec![
        28, 2, 198, 14, 76, 156, 36, 159, 61, 146, 179, 177, 229, 232, 135, 13, 108, 181,
    ];
    assert_eq!(g.render(ClassificationPolicy::Bands, PixelFormat::Rgb), want);
}

#[test]
fn buffers_under_the_other_policies() {
    let (_, g) = small_map();
    let inverted: Vec<u8> = vec![
        146, 179, 177, 146, 179, 177, 19, 112, 38, 14, 76, 156, 146, 179, 177, 146, 179, 177,
    ];
    assert_eq!(g.render(ClassificationPolicy::InvertedBands, PixelFormat::Rgb), inverted);
    let two_tone: Vec<u8> = vec![
        0, 255, 0, 1, 0, 255, 0, 1, 0, 0, 255, 1, 0, 0, 255, 1, 0, 0, 255, 1, 0, 255, 0, 1,
    ];
    assert_eq!(g.render(ClassificationPolicy::TwoTone, PixelFormat::Rgba), two_tone);
}

#[test]
fn every_point_is_painted_once_and_in_place() {
    let s = sized(9, 4);
    let g = generator(&s);
    for (format, channels) in [(PixelFormat::Rgb, 3), (PixelFormat::Rgba, 4)] {
        let buffer = g.render(ClassificationPolicy::Bands, format);
        assert_eq!(buffer.len(), 9 * 4 * channels);
        for i in 0..9 {
            for j in 0..4 {
                let at = (i * 4 + j) * channels;
                let (red, green, blue) = g.get_pixel_color((i, j));
                assert_eq!(buffer[at], red);
                assert_eq!(buffer[at + 1], green);
                assert_eq!(buffer[at + 2], blue);
                if channels == 4 {
                    assert_eq!(buffer[at + 3], 1);
                }
            }
        }
    }
}

#[test]
fn empty_maps_give_empty_buffers() {
    for (w, h) in [(0, 0), (0, 5), (5, 0)] {
        let g = generator(&sized(w, h));
        assert!(g.get_noise_map_vec_rgba_8_u_norm().is_empty());
        assert!(g.render(ClassificationPolicy::TwoTone, PixelFormat::Rgb).is_empty());
    }
}

#[test]
fn a_large_grid_shows_more_than_one_biome() {
    let g = generator(&sized(100, 100));
    let buffer = g.get_noise_map_vec_rgba_8_u_norm();
    assert_eq!(buffer.len(), 100 * 100 * 4);
    let first = (buffer[0], buffer[1], buffer[2]);
    let mut other = false;
    for pixel in buffer.chunks(4) {
        if (pixel[0], pixel[1], pixel[2]) != first {
            other = true;
        }
    }
    assert!(other);
}

#[test]
fn equal_parameters_give_identical_maps() {
    let s = sized(40, 30);
    let first = generator(&s).get_noise_map_vec_rgba_8_u_norm();
    let second = generator(&s).get_noise_map_vec_rgba_8_u_norm();
    assert_eq!(first, second);
}

#[test]
fn a_new_seed_changes_the_map() {
    let s = sized(40, 30);
    let mut t = s;
    t.seed = 1;
    let mut differs = false;
    let (a, c) = (generator(&s), generator(&t));
    for x in 0..40 {
        for y in 0..30 {
            if a.get_noise_value((x, y)) != c.get_noise_value((x, y)) {
                differs = true;
            }
        }
    }
    assert!(differs);
}

#[test]
fn map_values_lie_in_the_unit_interval() {
    for octaves in [0, 1, 6, 10] {
        for persistence in [0.1, 1.5, 3.0] {
            for lacunarity in [0.5, 1.2, 3.0] {
                let mut s = sized(12, 12);
                s.octaves = octaves;
                s.persistence = b(persistence);
                s.lacunarity = b(lacunarity);
                let g = generator(&s);
                for x in 0..12 {
                    for y in 0..12 {
                        let e = g.get_noise_value((x, y));
                        assert!(e.ge(b(0.0)) && b(1.0).ge(e));
                        assert_eq!(e, g.get_noise_value((x, y)).clamp_unit());
                    }
                }
            }
        }
    }
}

#[test]
fn noise_values_are_clamped() {
    let values = vec![b(-0.5), b(1.5), b(f64::NAN), b(0.3), b(f64::INFINITY), b(1.0)];
    let map = NoiseMap::new(2, 3, b(7.0), values).unwrap();
    let g = Generator::new(&sized(2, 3), map).unwrap();
    assert_eq!(g.get_noise_value((0, 0)), b(0.0));
    assert_eq!(g.get_noise_value((1, 0)), b(1.0));
    assert_eq!(g.get_noise_value((0, 1)), b(0.0));
    assert_eq!(g.get_noise_value((1, 1)), b(0.3));
    assert_eq!(g.get_noise_value((0, 2)), b(1.0));
    assert_eq!(g.get_noise_value((1, 2)), b(1.0));
    assert_eq!(g.get_noise_value((5, 5)), b(1.0));
    assert_eq!(g.get_pixel_color((0, 0)), (28, 2, 198));
    assert_eq!(g.get_pixel_color((1, 0)), (146, 179, 177));
    assert_eq!(g.get_pixel_color((0, 1)), (28, 2, 198));
    let want: Vec<u8> = vec![
        28, 2, 198, 28, 2, 198, 146, 179, 177, 146, 179, 177, 13, 108, 181, 146, 179, 177,
    ];
    assert_eq!(g.render(ClassificationPolicy::Bands, PixelFormat::Rgb), want);
}

#[test]
fn dimensions_are_those_asked_for() {
    let (_, g) = small_map();
    assert_eq!(g.dimensions(), (2, 3));
    assert_eq!(generator(&sized(0, 5)).dimensions(), (0, 5));
}
