use vstd::prelude::*;

verus! {

/// Width, in texels, of the terrain height map (and of each of its rows).
pub const TERRAIN_SIZE: usize = 512;

/// Number of channels (RGBA) stored per texel.
pub const CHANNELS: usize = 4;

/// Number of rows of the terrain buffer: one more than the texture shows,
/// so that smoothing can read the row below the last one.
pub const TERRAIN_ROWS: usize = 513;

/// Number of values in the terrain buffer: 512 columns, 513 rows, RGBA.
pub const TERRAIN_LEN: usize = TERRAIN_SIZE * TERRAIN_ROWS * CHANNELS;

/// Distance in the buffer between a texel and the one below it.
pub const ROW_STRIDE: usize = TERRAIN_SIZE * CHANNELS;

/// Number of texels, counted from the first, that smoothing averages.
pub const SMOOTH_TEXELS: usize = 511 * 511;

/// Column of the texel that marks the centre of the map.
pub const MARKER_X: usize = 386;

/// Row of the texel that marks the centre of the map.
pub const MARKER_Z: usize = 447;

/// Number of spheres placed on the terrain.
pub const NUM_SPHERES: usize = 80;

/// Number of extra sphere records holding camera data.
pub const SPHERE_EXTRAS: usize = 2;

/// Uniform vector holding the camera position.
pub const CAMERA_POS_IDX: usize = NUM_SPHERES * 2;

/// Uniform vector holding the camera rotation.
pub const CAMERA_ROT_IDX: usize = NUM_SPHERES * 2 + 1;

/// Uniform vector holding the cut information (frames left, frames since the cut, time).
pub const CAMERA_CUT_INFO: usize = NUM_SPHERES * 2 + 2;

/// Number of four-component vectors handed to the shader.
pub const UNIFORM_VEC4_COUNT: usize = (NUM_SPHERES + SPHERE_EXTRAS) * 2;

/// Index of the red channel of the texel at column `x`, row `z`.
pub open spec fn spec_texel_index(x: int, z: int) -> int {
    (z * 512 + x) * 4
}

/// Index of the first channel of the texel at column `x`, row `z` of the terrain buffer.
pub fn texel_index(x: usize, z: usize) -> (idx: usize)
    requires
        x < TERRAIN_SIZE,
        z < TERRAIN_SIZE,
    ensures
        idx == spec_texel_index(x as int, z as int),
        idx == (z * 512 + x) * 4,
        idx + 3 < TERRAIN_LEN,
{
    (z * 512 + x) * 4
}

/// The texels are laid out row by row: the first texel is at 0, the next
/// texel to the right lies 4 values further, the texel below 2048 further.
pub proof fn lemma_texel_index_row_major(x: int, z: int)
    requires
        0 <= x < 512,
        0 <= z < 512,
    ensures
        spec_texel_index(0, 0) == 0,
        x + 1 < 512 ==> spec_texel_index(x + 1, z) == spec_texel_index(x, z) + 4,
        z + 1 < 512 ==> spec_texel_index(x, z + 1) == spec_texel_index(x, z) + 2048,
        spec_texel_index(x, z) == 2048 * z + 4 * x,
{
}

/// Two different texels of the map never share a channel.
pub proof fn lemma_texel_index_injective(x1: int, z1: int, x2: int, z2: int, c1: int, c2: int)
    requires
        0 <= x1 < 512,
        0 <= z1 < 512,
        0 <= x2 < 512,
        0 <= z2 < 512,
        0 <= c1 < 4,
        0 <= c2 < 4,
        spec_texel_index(x1, z1) + c1 == spec_texel_index(x2, z2) + c2,
    ensures
        x1 == x2,
        z1 == z2,
        c1 == c2,
{
    assert(x1 == x2 && z1 == z2 && c1 == c2) by (nonlinear_arith)
        requires
            0 <= x1 < 512,
            0 <= z1 < 512,
            0 <= x2 < 512,
            0 <= z2 < 512,
            0 <= c1 < 4,
            0 <= c2 < 4,
            (z1 * 512 + x1) * 4 + c1 == (z2 * 512 + x2) * 4 + c2,
    ;
}

/// The four buffer values averaged into the red channel of texel `xy`:
/// its own, the texel to its right and the two texels below.
pub open spec fn spec_smooth_taps(xy: int) -> (int, int, int, int) {
    (xy * 4, xy * 4 + 4, xy * 4 + 2048, xy * 4 + 2052)
}

/// Buffer indices that smoothing averages into the red channel of texel `xy`.
pub fn smooth_taps(xy: usize) -> (taps: (usize, usize, usize, usize))
    requires
        xy < SMOOTH_TEXELS,
    ensures
        (taps.0 as int, taps.1 as int, taps.2 as int, taps.3 as int) == spec_smooth_taps(xy as int),
        taps.0 == 4 * xy,
        taps.1 == 4 * xy + 4,
        taps.2 == 4 * xy + 2048,
        taps.3 == 4 * xy + 2052,
        taps.3 < TERRAIN_LEN,
{
    let offset = xy * 4;
    (offset, offset + 4, offset + ROW_STRIDE, offset + ROW_STRIDE + 4)
}

/// Smoothing runs over the texels in order and writes only the red channel
/// of the texel it is at; every value that step `xy` reads lies after every
/// value that an earlier step `k` wrote, so smoothing in place reads only
/// values that no step has yet changed.
pub proof fn lemma_smooth_reads_ahead(k: int, xy: int)
    requires
        0 <= k < xy < SMOOTH_TEXELS,
    ensures
        spec_smooth_taps(k).0 < spec_smooth_taps(xy).0,
        spec_smooth_taps(k).0 < spec_smooth_taps(xy).1,
        spec_smooth_taps(k).0 < spec_smooth_taps(xy).2,
        spec_smooth_taps(k).0 < spec_smooth_taps(xy).3,
{
}

/// The two uniform vectors of sphere `idx`: position and radius, then material.
pub fn sphere_slots(idx: usize) -> (slots: (usize, usize))
    requires
        idx < NUM_SPHERES,
    ensures
        slots.0 == 2 * idx,
        slots.1 == 2 * idx + 1,
        slots.1 < CAMERA_POS_IDX,
{
    (idx * 2, idx * 2 + 1)
}

/// The slots of two different spheres are distinct, and the camera vectors
/// follow all sphere vectors inside the uniform array.
pub proof fn lemma_uniform_layout(i: int, j: int)
    requires
        0 <= i < NUM_SPHERES,
        0 <= j < NUM_SPHERES,
        i != j,
    ensures
        2 * i != 2 * j,
        2 * i != 2 * j + 1,
        2 * i + 1 < CAMERA_POS_IDX,
        CAMERA_POS_IDX < CAMERA_ROT_IDX < CAMERA_CUT_INFO < UNIFORM_VEC4_COUNT,
{
}

} // verus!
