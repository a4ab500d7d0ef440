//! A rectangle of noise values, one for each point of a grid.
//!
//! The value of the point `(x, y)` stands at the index `x + y * width`; a
//! point outside the grid has the border value.

use crate::binary64::Binary64;
use crate::error::ConfigError;
use vstd::prelude::*;

verus! {

/// The width and the height of a map stay below this bound.
pub const RASTER_MAX: usize = 32_767;

/// The size that a map of the asked width and height gets: as asked, but
/// empty in both directions where one of the two is zero.
pub open spec fn map_size(width: usize, height: usize) -> (usize, usize) {
    if width == 0 || height == 0 {
        (0, 0)
    } else {
        (width, height)
    }
}

/// Noise values on a grid of at most 32766 by 32766 points.
pub struct NoiseMap {
    size: (usize, usize),
    border_value: Binary64,
    map: Vec<Binary64>,
}

impl NoiseMap {
    #[verifier::type_invariant]
    spec fn well_formed(self) -> bool {
        &&& self.size.0 < RASTER_MAX
        &&& self.size.1 < RASTER_MAX
        &&& self.size == map_size(self.size.0, self.size.1)
        &&& self.map.len() == self.size.0 * self.size.1
    }

    /// Width and height of the grid.
    pub closed spec fn size(self) -> (usize, usize) {
        self.size
    }

    /// The value of every point outside the grid.
    pub closed spec fn border(self) -> Binary64 {
        self.border_value
    }

    /// The values of the grid, row after row.
    pub closed spec fn values(self) -> Seq<Binary64> {
        self.map@
    }

    /// The value of the point `(x, y)`.
    pub open spec fn value_at(self, x: int, y: int) -> Binary64 {
        if 0 <= x < self.size().0 && 0 <= y < self.size().1 {
            self.values()[x + y * self.size().0]
        } else {
            self.border()
        }
    }

    /// A map of the given width and height over the given values. It is
    /// refused where a side reaches the bound or the number of values is not
    /// that of the grid's points.
    pub fn new(width: usize, height: usize, border_value: Binary64, values: Vec<Binary64>) -> (r:
        Result<NoiseMap, ConfigError>)
        ensures
            r is Ok <==> width < RASTER_MAX && height < RASTER_MAX && values.len() == map_size(
                width,
                height,
            ).0 * map_size(width, height).1,
            r matches Ok(m) ==> m.size() == map_size(width, height) && m.border() == border_value
                && m.values() == values@,
            r matches Err(e) ==> e == ConfigError::MapSize,
    {
        if width >= RASTER_MAX || height >= RASTER_MAX {
            return Err(ConfigError::MapSize);
        }
        let size: (usize, usize) = if width == 0 || height == 0 {
            (0, 0)
        } else {
            (width, height)
        };
        assert(size.0 * size.1 <= 32_766 * 32_766) by (nonlinear_arith)
            requires
                size.0 <= 32_766,
                size.1 <= 32_766,
        ;
        if values.len() != size.0 * size.1 {
            return Err(ConfigError::MapSize);
        }
        Ok(NoiseMap { size, border_value, map: values })
    }

    /// Width and height of the grid.
    pub fn get_size(&self) -> (size: (usize, usize))
        ensures
            size == self.size(),
            size.0 < RASTER_MAX,
            size.1 < RASTER_MAX,
            size == map_size(size.0, size.1),
            self.values().len() == size.0 * size.1,
    {
        proof {
            use_type_invariant(self);
        }
        self.size
    }

    /// The value of every point outside the grid.
    pub fn border_value(&self) -> (value: Binary64)
        ensures
            value == self.border(),
    {
        self.border_value
    }

    /// The value of the point `(x, y)`.
    pub fn get_value(&self, x: usize, y: usize) -> (value: Binary64)
        ensures
            value == self.value_at(x as int, y as int),
    {
        proof {
            use_type_invariant(self);
        }
        let (width, height) = self.size;
        if x < width && y < height {
            assert(x + y * width < width * height) by (nonlinear_arith)
                requires
                    x < width,
                    y < height,
            ;
            self.map[x + y * width]
        } else {
            self.border_value
        }
    }
}

} // verus!
