use vstd::prelude::*;
use vstd::slice::slice_subrange;
use crate::rom::Syvalion;
use crate::walk::MapError;
use crate::expand::TILE_MAP_LEN;

verus! {

/// Bytes of one pixel row of a tile: 16 RGB pixels.
pub const TILE_RUN: usize = 48;
/// Bytes of one pixel row of the tileset: 8 tiles side by side.
pub const TILESET_STRIDE: usize = 384;
/// Number of 48-byte runs in the picture: 4096 pixel rows of 256 tiles.
pub const IMAGE_RUNS: usize = 1048576;
/// Width and height of the picture in pixels.
pub const IMAGE_SIDE: u32 = 4096;
/// Size of the picture: 4096 by 4096 RGB pixels.
pub const IMAGE_LEN: usize = 50331648;

/// Offset in the tileset of pixel row `line` of tile `t`: the tileset holds 8
/// tiles per row, each 16 by 16 pixels.
pub open spec fn tile_source(t: u8, line: int) -> int {
    (t % 8) * 48 + (t / 8) * 6144 + line * 384
}

/// Whether every pixel row of tile `t` lies in a tileset of `len` bytes.
pub open spec fn tile_fits(len: int, t: u8) -> bool {
    tile_source(t, 15) + 48 <= len
}

pub open spec fn tiles_fit(tile_map: Seq<u8>, tileset: Seq<u8>) -> bool {
    forall|i: int| 0 <= i < TILE_MAP_LEN ==> #[trigger] tile_fits(tileset.len() as int, tile_map[i])
}

/// Tile index of the `q`-th run of the picture: runs go over the 256 tiles of
/// a pixel row (`q % 256`), then over the 16 pixel rows of a tile row
/// (`q / 256 % 16`), then over the tile rows (`q / 4096`).
pub open spec fn run_tile(tile_map: Seq<u8>, q: int) -> u8 {
    tile_map[(q / 4096) * 256 + q % 256]
}

/// Offset in the tileset of the `q`-th run of the picture.
pub open spec fn run_source(tile_map: Seq<u8>, q: int) -> int {
    tile_source(run_tile(tile_map, q), (q / 256) % 16)
}

/// The picture: byte `j` is byte `j % 48` of the tileset run behind run `j / 48`.
pub open spec fn composed(tile_map: Seq<u8>, tileset: Seq<u8>) -> Seq<u8> {
    Seq::new(IMAGE_LEN as nat, |j: int| tileset[run_source(tile_map, j / 48) + j % 48])
}

/// The picture of a tile map, or why the tileset cannot provide it.
pub open spec fn image(tile_map: Seq<u8>, tileset: Seq<u8>) -> Result<Seq<u8>, MapError> {
    if tiles_fit(tile_map, tileset) {
        Ok(composed(tile_map, tileset))
    } else {
        Err(MapError::TileOutOfRange)
    }
}

/// Offset in a tileset of pixel row `line` of tile `t`.
pub fn tile_offset(t: u8, line: usize) -> (r: usize)
    requires
        line < 16,
    ensures
        r as int == tile_source(t, line as int),
{
    let tx = (t & 0b111) as usize;
    let ty = (t >> 3) as usize;
    assert(t & 0b111 == t % 8 && t >> 3 == t / 8) by (bit_vector);
    tx * 16 * 3 + ty * 8 * 16 * 16 * 3 + line * 128 * 3
}

impl Syvalion {
    /// Paints each tile index of the map as a 16 by 16 block of RGB pixels,
    /// copied from the tileset.
    pub fn generate_image(tile_map: &Vec<u8>, tiles: &Vec<u8>) -> (r: Result<Vec<u8>, MapError>)
        requires
            tile_map@.len() == TILE_MAP_LEN,
        ensures
            match r {
                Ok(p) => image(tile_map@, tiles@) == Ok::<Seq<u8>, MapError>(p@),
                Err(e) => image(tile_map@, tiles@) == Err::<Seq<u8>, MapError>(e),
            },
    {
        let mut i: usize = 0;
        while i < TILE_MAP_LEN
            invariant
                i <= TILE_MAP_LEN,
                tile_map@.len() == TILE_MAP_LEN,
                forall|q: int| 0 <= q < i ==> #[trigger] tile_fits(tiles@.len() as int, tile_map@[q]),
            decreases TILE_MAP_LEN - i,
        {
            let end = tile_offset(tile_map[i], 15) + TILE_RUN;
            if end > tiles.len() {
                assert(!tile_fits(tiles@.len() as int, tile_map@[i as int]));
                return Err(MapError::TileOutOfRange);
            }
            i = i + 1;
        }
        let mut output: Vec<u8> = Vec::with_capacity(IMAGE_LEN);
        let mut q: usize = 0;
        while q < IMAGE_RUNS
            invariant
                q <= IMAGE_RUNS,
                tile_map@.len() == TILE_MAP_LEN,
                tiles_fit(tile_map@, tiles@),
                output@.len() == q * 48,
                forall|j: int| 0 <= j < output@.len() ==> #[trigger] output@[j] == composed(tile_map@, tiles@)[j],
            decreases IMAGE_RUNS - q,
        {
            let t = tile_map[(q / 4096) * 256 + q % 256];
            assert(tile_fits(tiles@.len() as int, t));
            let src = tile_offset(t, (q / 256) % 16);
            let run = slice_subrange(tiles.as_slice(), src, src + TILE_RUN);
            let ghost before = output@;
            output.extend_from_slice(run);
            assert forall|j: int| 0 <= j < output@.len() implies #[trigger] output@[j] == composed(tile_map@, tiles@)[j] by {
                if j >= before.len() {
                    assert(j / 48 == q as int && j % 48 == j - q * 48);
                }
            }
            q = q + 1;
        }
        assert(output@ =~= composed(tile_map@, tiles@));
        Ok(output)
    }
}

} // verus!
