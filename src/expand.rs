use vstd::prelude::*;
use vstd::slice::slice_subrange;
use crate::address::{effective, snes_to_effective};
use crate::rom::{byte_at, readable, u24_at, Syvalion};
use crate::walk::{chain_start, chapter_slot, valid_chapter, MapError, CHAIN_BANK, CHAPTER_TABLE};

verus! {

/// Banked address of the table of tile-data bases, four bytes per entry.
pub const TILE_BANK_TABLE: u32 = 0x06C7FF;
/// Number of 16-byte rows in an expanded tile map: 16 by 16 screens of 16 rows.
pub const TILE_ROWS: usize = 4096;
/// Size of an expanded tile map.
pub const TILE_MAP_LEN: usize = 65536;

/// Address of the screen byte of the chapter's first chain node, which
/// selects the tile data.
pub open spec fn selector_address(rom: Seq<u8>, chapter: u8) -> u32 {
    CHAIN_BANK | (chain_start(rom, chapter) as u32)
}

/// Address of the entry of the tile-data table for a selector.
pub open spec fn bank_slot(selector: u8) -> u32 {
    (TILE_BANK_TABLE + selector * 4) as u32
}

/// Banked base of the chapter's tile data.
pub open spec fn tile_base(rom: Seq<u8>, chapter: u8) -> u32 {
    u24_at(rom, bank_slot(byte_at(rom, selector_address(rom, chapter)))) as u32
}

/// Address of row `line` of a screen's 16 rows of 16 tile indices.
pub open spec fn row_address(base: u32, screen: u8, line: int) -> u32 {
    (base + screen * 0x100 + line * 0x10) as u32
}

/// Address of the `r`-th row of the expanded map: rows run over the screens of
/// one grid row (`r % 16`), then over the lines (`r / 16 % 16`), then over
/// the grid rows (`r / 256`).
pub open spec fn map_row_address(map: Seq<u8>, base: u32, r: int) -> u32 {
    row_address(base, map[(r / 256) * 16 + r % 16], (r / 16) % 16)
}

/// Whether every row of the expansion lies in the ROM.
pub open spec fn rows_readable(rom: Seq<u8>, map: Seq<u8>, base: u32) -> bool {
    forall|r: int| 0 <= r < TILE_ROWS ==> #[trigger] readable(rom, map_row_address(map, base, r), 16)
}

/// The expanded map: byte `j` is byte `j % 16` of row `j / 16`.
pub open spec fn expanded(rom: Seq<u8>, map: Seq<u8>, base: u32) -> Seq<u8> {
    Seq::new(TILE_MAP_LEN as nat, |j: int| rom[effective(map_row_address(map, base, j / 16)) + j % 16])
}

/// Whether the chapter's table entry, its first node's screen byte and its
/// tile-data table entry lie in the ROM, and the first node lies in the bank.
pub open spec fn context_readable(rom: Seq<u8>, chapter: u8) -> bool {
    &&& readable(rom, chapter_slot(chapter), 2)
    &&& chain_start(rom, chapter) <= 0xFFFF
    &&& readable(rom, selector_address(rom, chapter), 1)
    &&& readable(rom, bank_slot(byte_at(rom, selector_address(rom, chapter))), 3)
}

/// The tile map of a chapter's screen grid, or why it cannot be read.
pub open spec fn tile_map(rom: Seq<u8>, map: Seq<u8>, chapter: u8) -> Result<Seq<u8>, MapError> {
    if !context_readable(rom, chapter) || !rows_readable(rom, map, tile_base(rom, chapter)) {
        Err(MapError::OutOfBounds)
    } else {
        Ok(expanded(rom, map, tile_base(rom, chapter)))
    }
}

impl Syvalion {
    /// The 16 tile indices of row `line_offset` of a screen.
    pub fn get_screen_line(&self, screen: u8, base_offset: u32, line_offset: u8) -> (r: &[u8])
        requires
            base_offset + screen * 0x100 + line_offset * 0x10 <= u32::MAX,
            readable(self.rom@, row_address(base_offset, screen, line_offset as int), 16),
        ensures
            ({
                let o = effective(row_address(base_offset, screen, line_offset as int));
                r@ == self.rom@.subrange(o, o + 16)
            }),
    {
        let offset = base_offset + screen as u32 * 0x100 + line_offset as u32 * 0x10;
        let start = snes_to_effective(offset);
        slice_subrange(self.rom.as_slice(), start, start + 16)
    }

    /// Expands each screen of the grid into its 16 by 16 tile indices, read
    /// from the chapter's tile data.
    pub fn generate_tile_map(&self, map: &Vec<u8>, chapter: u8) -> (r: Result<Vec<u8>, MapError>)
        requires
            valid_chapter(chapter),
            map@.len() == 256,
        ensures
            match r {
                Ok(t) => tile_map(self.rom@, map@, chapter) == Ok::<Seq<u8>, MapError>(t@),
                Err(e) => tile_map(self.rom@, map@, chapter) == Err::<Seq<u8>, MapError>(e),
            },
    {
        let slot = CHAPTER_TABLE + (chapter as u32 - 1) * 2;
        if !self.can_read(slot, 2) {
            return Err(MapError::OutOfBounds);
        }
        let entry = self.make_u16(slot);
        if entry > 0xFFFD {
            return Err(MapError::OutOfBounds);
        }
        let selector_addr = CHAIN_BANK | (entry as u32 + 2); // first node, past the header
        if !self.can_read(selector_addr, 1) {
            return Err(MapError::OutOfBounds);
        }
        let selector = self.get_u8(selector_addr);
        let table_addr = TILE_BANK_TABLE + selector as u32 * 4;
        if !self.can_read(table_addr, 3) {
            return Err(MapError::OutOfBounds);
        }
        let base = self.make_u24(table_addr);
        let ghost rom = self.rom@;
        assert(base <= 0xFFFFFF);
        let mut r: usize = 0;
        while r < TILE_ROWS
            invariant
                r <= TILE_ROWS,
                map@.len() == 256,
                base <= 0xFFFFFF,
                rom == self.rom@,
                context_readable(rom, chapter),
                base == tile_base(rom, chapter),
                forall|q: int| 0 <= q < r ==> #[trigger] readable(rom, map_row_address(map@, base, q), 16),
            decreases TILE_ROWS - r,
        {
            let screen = map[(r / 256) * 16 + r % 16];
            let line = ((r / 16) % 16) as u8;
            let addr = base + screen as u32 * 0x100 + line as u32 * 0x10;
            assert(addr == map_row_address(map@, base, r as int));
            if !self.can_read(addr, 16) {
                return Err(MapError::OutOfBounds);
            }
            r = r + 1;
        }
        let mut tiles: Vec<u8> = Vec::new();
        let mut r: usize = 0;
        while r < TILE_ROWS
            invariant
                r <= TILE_ROWS,
                map@.len() == 256,
                base <= 0xFFFFFF,
                rom == self.rom@,
                context_readable(rom, chapter),
                base == tile_base(rom, chapter),
                rows_readable(rom, map@, base),
                tiles@.len() == r * 16,
                forall|j: int| 0 <= j < tiles@.len() ==> #[trigger] tiles@[j] == expanded(rom, map@, base)[j],
            decreases TILE_ROWS - r,
        {
            let screen = map[(r / 256) * 16 + r % 16];
            let line = ((r / 16) % 16) as u8;
            assert(readable(rom, map_row_address(map@, base, r as int), 16));
            let row = self.get_screen_line(screen, base, line);
            let ghost before = tiles@;
            tiles.extend_from_slice(row);
            assert forall|j: int| 0 <= j < tiles@.len() implies #[trigger] tiles@[j] == expanded(rom, map@, base)[j] by {
                if j >= before.len() {
                    assert(j / 16 == r as int && j % 16 == j - r * 16);
                }
            }
            r = r + 1;
        }
        assert(tiles@ =~= expanded(rom, map@, base));
        Ok(tiles)
    }
}

} // verus!
