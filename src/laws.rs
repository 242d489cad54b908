use vstd::prelude::*;
use vstd::arithmetic::div_mod::lemma_fundamental_div_mod_converse;
use crate::address::effective;
use crate::rom::{byte_at, readable};
use crate::layout::{block_offset, lemma_block_cover, lemma_block_index};
use crate::walk::{
    chain_ends, chain_start, chapter_slot, direction_address, initial_grid, is_terminal,
    next_position, screen_address, screen_map, valid_chapter, walk, walk_cells, MapError,
    MAX_STEPS, SENTINEL,
};
use crate::expand::{expanded, row_address, tile_map};
use crate::compose::{composed, tile_source, IMAGE_LEN};

verus! {

/// Offset in the expanded map of byte `k` of row `line` of the screen at `(x, y)`.
pub open spec fn tile_map_offset(y: int, line: int, x: int, k: int) -> int {
    x * 16 + line * 256 + y * 4096 + k
}

/// Offset in the picture of byte `k` of pixel row `line` of the tile at `(x, y)`.
pub open spec fn image_offset(y: int, x: int, line: int, k: int) -> int {
    y * 196608 + x * 48 + line * 12288 + k
}

proof fn lemma_walk_ends(rom: Seq<u8>, p: u16, x: int, y: int, grid: Seq<u8>, fuel: nat)
    requires
        0 <= x < 16,
        0 <= y < 16,
        grid.len() == 256,
        chain_ends(rom, p, fuel),
    ensures
        walk(rom, p, x, y, grid, fuel) is Ok,
        ({
            let g = walk(rom, p, x, y, grid, fuel)->Ok_0;
            let cells = walk_cells(rom, p, x, y, fuel);
            &&& g.len() == 256
            &&& 0 < cells.len() <= fuel
            &&& forall|k: int| 0 <= k < cells.len() ==> 0 <= #[trigger] cells[k] < 256
            &&& forall|i: int| 0 <= i < 256 && !cells.contains(i) ==> g[i] == grid[i]
        }),
    decreases fuel,
{
    let direction = byte_at(rom, direction_address(p));
    let g1 = grid.update(y * 16 + x, byte_at(rom, screen_address(p)));
    if !is_terminal(direction) {
        let n = next_position(x, y, direction);
        lemma_walk_ends(rom, (p + 2) as u16, n.0, n.1, g1, (fuel - 1) as nat);
        let rest = walk_cells(rom, (p + 2) as u16, n.0, n.1, (fuel - 1) as nat);
        let cells = walk_cells(rom, p, x, y, fuel);
        assert(cells == seq![y * 16 + x] + rest);
        assert forall|k: int| 0 <= k < cells.len() implies 0 <= #[trigger] cells[k] < 256 by {
            if k > 0 {
                assert(cells[k] == rest[k - 1]);
            }
        }
        assert forall|i: int| 0 <= i < 256 && !cells.contains(i) implies walk(rom, p, x, y, grid, fuel)->Ok_0[i] == grid[i] by {
            assert(cells[0] == y * 16 + x);
            if rest.contains(i) {
                let k = choose|k: int| 0 <= k < rest.len() && rest[k] == i;
                assert(cells[k + 1] == i);
            }
        }
    } else {
        let cells = walk_cells(rom, p, x, y, fuel);
        assert(cells[0] == y * 16 + x);
    }
}

/// A chapter whose chain ends within `MAX_STEPS` nodes is decoded: the walk
/// writes at most `MAX_STEPS` cells, all in the grid, and every cell it never
/// writes holds `SENTINEL`.
pub proof fn lemma_walk_terminates(rom: Seq<u8>, chapter: u8)
    requires
        valid_chapter(chapter),
        readable(rom, chapter_slot(chapter), 2),
        chain_start(rom, chapter) <= 0xFFFF,
        chain_ends(rom, chain_start(rom, chapter) as u16, MAX_STEPS as nat),
    ensures
        screen_map(rom, chapter) is Ok,
        ({
            let g = screen_map(rom, chapter)->Ok_0;
            let cells = walk_cells(rom, chain_start(rom, chapter) as u16, 1, 0, MAX_STEPS as nat);
            &&& g.len() == 256
            &&& cells.len() <= MAX_STEPS
            &&& forall|k: int| 0 <= k < cells.len() ==> 0 <= #[trigger] cells[k] < 256
            &&& forall|i: int| 0 <= i < 256 && !cells.contains(i) ==> g[i] == SENTINEL
        }),
{
    lemma_walk_ends(rom, chain_start(rom, chapter) as u16, 1, 0, initial_grid(), MAX_STEPS as nat);
}

/// A move stays on the 16 by 16 grid: leaving an edge enters from the
/// opposite edge.
pub proof fn lemma_step_wraps(x: int, y: int, direction: u8)
    requires
        0 <= x < 16,
        0 <= y < 16,
    ensures
        0 <= next_position(x, y, direction).0 < 16,
        0 <= next_position(x, y, direction).1 < 16,
        x == 15 && direction % 4 == 0 ==> next_position(x, y, direction).0 == 0,
        y == 0 && direction % 4 == 1 ==> next_position(x, y, direction).1 == 15,
        x == 0 && direction % 4 == 2 ==> next_position(x, y, direction).0 == 15,
        y == 15 && direction % 4 == 3 ==> next_position(x, y, direction).1 == 0,
{
}

/// Byte `k` of row `line` of the screen at grid position `(x, y)` lands at
/// `x * 16 + line * 256 + y * 4096` in the expanded map, taken from the ROM row
/// of that screen and line.
pub proof fn lemma_tile_map_rows(rom: Seq<u8>, map: Seq<u8>, base: u32, y: int, line: int, x: int, k: int)
    requires
        map.len() == 256,
        0 <= y < 16,
        0 <= line < 16,
        0 <= x < 16,
        0 <= k < 16,
    ensures
        0 <= tile_map_offset(y, line, x, k) < 65536,
        expanded(rom, map, base)[tile_map_offset(y, line, x, k)]
            == rom[effective(row_address(base, map[y * 16 + x], line)) + k],
{
    let j = x * 16 + line * 256 + y * 4096 + k;
    let r = y * 256 + line * 16 + x;
    assert(j == r * 16 + k);
    lemma_fundamental_div_mod_converse(j, 16, r, k);
    lemma_block_index(y, line, x, 0, 16, 16, 1);
    assert(block_offset(y, line, x, 0, 16, 16, 1) == r);
}

/// Each byte of the expanded map belongs to exactly one screen row: its
/// offset names one grid position, line and byte, and no two of those share
/// an offset.
pub proof fn lemma_tile_map_partition(j: int, y1: int, line1: int, x1: int, k1: int, y2: int, line2: int, x2: int, k2: int)
    requires
        0 <= j < 65536,
        0 <= y1 < 16 && 0 <= line1 < 16 && 0 <= x1 < 16 && 0 <= k1 < 16,
        0 <= y2 < 16 && 0 <= line2 < 16 && 0 <= x2 < 16 && 0 <= k2 < 16,
        tile_map_offset(y1, line1, x1, k1) == tile_map_offset(y2, line2, x2, k2),
    ensures
        y1 == y2 && line1 == line2 && x1 == x2 && k1 == k2,
        exists|y: int, line: int, x: int, k: int|
            0 <= y < 16 && 0 <= line < 16 && 0 <= x < 16 && 0 <= k < 16
            && j == #[trigger] tile_map_offset(y, line, x, k),
{
    lemma_block_index(y1, line1, x1, k1, 16, 16, 16);
    lemma_block_index(y2, line2, x2, k2, 16, 16, 16);
    lemma_block_cover(j, 16, 16, 16, 16);
    let y = j / 4096;
    let line = (j / 256) % 16;
    let x = (j / 16) % 16;
    let k = j % 16;
    assert(j == tile_map_offset(y, line, x, k));
}

/// Expanding the same grid of the same chapter of the same ROM twice gives
/// the same tile map.
pub proof fn lemma_tile_map_deterministic(rom: Seq<u8>, map: Seq<u8>, chapter: u8, first: Seq<u8>, second: Seq<u8>)
    requires
        tile_map(rom, map, chapter) == Ok::<Seq<u8>, MapError>(first),
        tile_map(rom, map, chapter) == Ok::<Seq<u8>, MapError>(second),
    ensures
        first == second,
{
}

/// Byte `k` of pixel row `line` of the block for tile `(x, y)` lands at
/// `y * 196608 + x * 48 + line * 12288` in the picture, taken from the same
/// pixel row of that tile in the tileset.
pub proof fn lemma_image_blocks(tiles: Seq<u8>, tileset: Seq<u8>, y: int, x: int, line: int, k: int)
    requires
        tiles.len() == 65536,
        0 <= y < 256,
        0 <= x < 256,
        0 <= line < 16,
        0 <= k < 48,
    ensures
        0 <= image_offset(y, x, line, k) < IMAGE_LEN,
        composed(tiles, tileset)[image_offset(y, x, line, k)]
            == tileset[tile_source(tiles[y * 256 + x], line) + k],
{
    let j = y * 196608 + x * 48 + line * 12288 + k;
    let q = y * 4096 + line * 256 + x;
    assert(j == q * 48 + k);
    assert(0 <= q < 1048576);
    lemma_fundamental_div_mod_converse(j, 48, q, k);
    lemma_block_index(y, line, x, 0, 16, 256, 1);
    assert(block_offset(y, line, x, 0, 16, 256, 1) == q);
}

/// Each byte of the picture is written by exactly one tile's pixel row: its
/// offset names one tile position, pixel row and byte, and no two of those
/// share an offset.
pub proof fn lemma_image_partition(j: int, y1: int, x1: int, line1: int, k1: int, y2: int, x2: int, line2: int, k2: int)
    requires
        0 <= j < IMAGE_LEN,
        0 <= y1 < 256 && 0 <= x1 < 256 && 0 <= line1 < 16 && 0 <= k1 < 48,
        0 <= y2 < 256 && 0 <= x2 < 256 && 0 <= line2 < 16 && 0 <= k2 < 48,
        image_offset(y1, x1, line1, k1) == image_offset(y2, x2, line2, k2),
    ensures
        y1 == y2 && x1 == x2 && line1 == line2 && k1 == k2,
        exists|y: int, x: int, line: int, k: int|
            0 <= y < 256 && 0 <= x < 256 && 0 <= line < 16 && 0 <= k < 48
            && j == #[trigger] image_offset(y, x, line, k),
{
    lemma_block_index(y1, line1, x1, k1, 16, 256, 48);
    lemma_block_index(y2, line2, x2, k2, 16, 256, 48);
    lemma_block_cover(j, 16, 256, 48, 256);
    let y = j / 196608;
    let line = (j / 12288) % 16;
    let x = (j / 48) % 256;
    let k = j % 48;
    assert(j == image_offset(y, x, line, k));
}

} // verus!
