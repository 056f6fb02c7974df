//! Terrain of the tile grid and the generators that decide it.

use crate::model::IPoint;
use vstd::prelude::*;

verus! {

/// What a tile is made of.
#[derive(Clone, Copy, Debug, PartialEq, Eq, Structural, Hash)]
pub enum TerrainType {
    Dirt,
    Grass,
}

/// Something that decides the terrain of each tile.
pub trait TerrainProvider {
    fn get_for(&self, position: &IPoint) -> TerrainType;
}

/// Terrain from harmonic Perlin noise: the parameters of the noise, whose
/// sign decides between dirt and grass.
#[derive(Clone, Copy, Debug, PartialEq, Eq, Structural)]
pub struct PerlinTerrain1 {
    pub root_scale: u32,
    pub root_offset: IPoint,
    pub multiplier: u8,
    pub offset_shift: IPoint,
    pub count: u8,
    pub seed: u64,
}

impl PerlinTerrain1 {
    pub fn new(
        root_scale: u32,
        root_offset: IPoint,
        multiplier: u8,
        offset_shift: IPoint,
        count: u8,
        seed: u64,
    ) -> (t: PerlinTerrain1)
        ensures
            t == (PerlinTerrain1 { root_scale, root_offset, multiplier, offset_shift, count, seed }),
    {
        PerlinTerrain1 { root_scale, root_offset, multiplier, offset_shift, count, seed }
    }
}

impl Default for PerlinTerrain1 {
    /// Octave scale 8, no offset, multiplier 2, offset shift (6, 6), twelve
    /// octaves, seed 0.
    fn default() -> (t: PerlinTerrain1)
        ensures
            t == (PerlinTerrain1 {
                root_scale: 8,
                root_offset: IPoint { x: 0, y: 0 },
                multiplier: 2,
                offset_shift: IPoint { x: 6, y: 6 },
                count: 12,
                seed: 0,
            }),
    {
        PerlinTerrain1::new(8, IPoint { x: 0, y: 0 }, 2, IPoint { x: 6, y: 6 }, 12, 0)
    }
}

/// Terrain from simplex noise, whose sign decides between dirt and grass.
#[derive(Clone, Copy, Debug, PartialEq, Eq, Structural)]
pub struct SimplexTerrain1 {}

impl SimplexTerrain1 {
    pub fn new() -> (t: SimplexTerrain1)
        ensures
            t == (SimplexTerrain1 {}),
    {
        SimplexTerrain1 {}
    }
}

impl Default for SimplexTerrain1 {
    fn default() -> (t: SimplexTerrain1)
        ensures
            t == (SimplexTerrain1 {}),
    {
        SimplexTerrain1::new()
    }
}

} // verus!
