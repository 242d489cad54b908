use vstd::prelude::*;
use crate::rom::{byte_at, readable, u16_at, Syvalion};

verus! {

/// Banked address of the table of chain pointers, one 16-bit entry per chapter.
pub const CHAPTER_TABLE: u32 = 0x06B831;
/// Bank that holds the chains.
pub const CHAIN_BANK: u32 = 0x060000;
/// Value of a screen cell that the walk never wrote.
pub const SENTINEL: u8 = 0x15;
/// Largest number of chain nodes a walk reads.
pub const MAX_STEPS: u32 = 256;

/// Why a chapter could not be decoded.
#[derive(Clone, Copy, Debug, PartialEq, Eq, Structural)]
pub enum MapError {
    /// A read falls outside the ROM, or a chain pointer leaves its bank.
    OutOfBounds,
    /// The chain has no terminal node among its first `MAX_STEPS` nodes.
    Unterminated,
    /// A tile index points past the end of the tileset.
    TileOutOfRange,
    /// The chapter number has no entry in the chapter tables.
    ChapterOutOfRange,
}

/// Whether the chapter number has an entry in the chapter tables.
pub open spec fn valid_chapter(chapter: u8) -> bool {
    1 <= chapter <= 5
}

/// Banked address of the chapter's entry in the chapter table.
pub open spec fn chapter_slot(chapter: u8) -> u32 {
    (CHAPTER_TABLE + (chapter - 1) * 2) as u32
}

/// Address of the screen byte of the node at pointer `p`.
pub open spec fn screen_address(p: u16) -> u32 {
    CHAIN_BANK | (p as u32)
}

/// Address of the direction byte of the node at pointer `p`.
pub open spec fn direction_address(p: u16) -> u32 {
    CHAIN_BANK | ((p as u32 + 1) as u32)
}

pub open spec fn node_readable(rom: Seq<u8>, p: u16) -> bool {
    readable(rom, screen_address(p), 1) && readable(rom, direction_address(p), 1)
}

/// Whether a direction byte ends the chain.
pub open spec fn is_terminal(direction: u8) -> bool {
    direction & 4 != 0
}

/// The grid position after one move: the low two bits of the direction give
/// east, north, west or south, and each coordinate wraps modulo 16.
pub open spec fn next_position(x: int, y: int, direction: u8) -> (int, int) {
    let d = direction % 4;
    if d == 0 {
        ((x + 1) % 16, y)
    } else if d == 1 {
        (x, (y - 1) % 16)
    } else if d == 2 {
        ((x - 1) % 16, y)
    } else {
        (x, (y + 1) % 16)
    }
}

/// The screen grid before the walk writes into it.
pub open spec fn initial_grid() -> Seq<u8> {
    Seq::new(256, |i: int| SENTINEL)
}

/// Result of walking the chain from pointer `p` at position `(x, y)` into
/// `grid`, reading at most `fuel` nodes.
pub open spec fn walk(rom: Seq<u8>, p: u16, x: int, y: int, grid: Seq<u8>, fuel: nat) -> Result<Seq<u8>, MapError>
    decreases fuel,
{
    if fuel == 0 {
        Err(MapError::Unterminated)
    } else if !node_readable(rom, p) {
        Err(MapError::OutOfBounds)
    } else {
        let screen = byte_at(rom, screen_address(p));
        let direction = byte_at(rom, direction_address(p));
        let g = grid.update(y * 16 + x, screen);
        if is_terminal(direction) {
            Ok(g)
        } else if p + 2 > 0xFFFF {
            Err(MapError::OutOfBounds)
        } else {
            let n = next_position(x, y, direction);
            walk(rom, (p + 2) as u16, n.0, n.1, g, (fuel - 1) as nat)
        }
    }
}

/// Grid cells that the walk writes, in order.
pub open spec fn walk_cells(rom: Seq<u8>, p: u16, x: int, y: int, fuel: nat) -> Seq<int>
    decreases fuel,
{
    if fuel == 0 || !node_readable(rom, p) {
        Seq::empty()
    } else {
        let direction = byte_at(rom, direction_address(p));
        if is_terminal(direction) || p + 2 > 0xFFFF {
            seq![y * 16 + x]
        } else {
            let n = next_position(x, y, direction);
            seq![y * 16 + x] + walk_cells(rom, (p + 2) as u16, n.0, n.1, (fuel - 1) as nat)
        }
    }
}

/// Whether the chain at `p` reaches a terminal node within `fuel` nodes, all of
/// them in the ROM and in the bank.
pub open spec fn chain_ends(rom: Seq<u8>, p: u16, fuel: nat) -> bool
    decreases fuel,
{
    fuel > 0 && node_readable(rom, p) && (is_terminal(byte_at(rom, direction_address(p))) || (
    p + 2 <= 0xFFFF && chain_ends(rom, (p + 2) as u16, (fuel - 1) as nat)))
}

/// Pointer to the first node of the chapter's chain: its table entry, past the
/// two-byte header.
pub open spec fn chain_start(rom: Seq<u8>, chapter: u8) -> int {
    u16_at(rom, chapter_slot(chapter)) + 2
}

/// The screen grid of a chapter, or why it cannot be decoded.
pub open spec fn screen_map(rom: Seq<u8>, chapter: u8) -> Result<Seq<u8>, MapError> {
    if !readable(rom, chapter_slot(chapter), 2) || chain_start(rom, chapter) > 0xFFFF {
        Err(MapError::OutOfBounds)
    } else {
        walk(rom, chain_start(rom, chapter) as u16, 1, 0, initial_grid(), MAX_STEPS as nat)
    }
}

/// One move on the 16 by 16 grid, wrapping at the edges.
pub fn move_position(x: u8, y: u8, direction: u8) -> (r: (u8, u8))
    requires
        x < 16,
        y < 16,
    ensures
        (r.0 as int, r.1 as int) == next_position(x as int, y as int, direction),
        r.0 < 16,
        r.1 < 16,
{
    let d = direction & 0b11;
    assert(direction & 0b11 == direction % 4) by (bit_vector);
    assert((x as int + 15) % 16 == (x as int - 1) % 16);
    assert((y as int + 15) % 16 == (y as int - 1) % 16);
    if d == 0 {
        ((x + 1) % 16, y)
    } else if d == 1 {
        (x, (y + 15) % 16)
    } else if d == 2 {
        ((x + 15) % 16, y)
    } else {
        (x, (y + 1) % 16)
    }
}

impl Syvalion {
    /// Walks the chapter's chain and records each node's screen in a 16 by 16
    /// grid, row by row; cells the walk never reaches keep `SENTINEL`.
    pub fn generate_map(&self, chapter: u8) -> (r: Result<Vec<u8>, MapError>)
        requires
            valid_chapter(chapter),
        ensures
            match r {
                Ok(g) => screen_map(self.rom@, chapter) == Ok::<Seq<u8>, MapError>(g@) && g@.len() == 256,
                Err(e) => screen_map(self.rom@, chapter) == Err::<Seq<u8>, MapError>(e),
            },
    {
        let mut map: Vec<u8> = vec![SENTINEL; 256];
        assert(map@ =~= initial_grid());
        let slot = CHAPTER_TABLE + (chapter as u32 - 1) * 2;
        if !self.can_read(slot, 2) {
            return Err(MapError::OutOfBounds);
        }
        let entry = self.make_u16(slot);
        if entry > 0xFFFD {
            return Err(MapError::OutOfBounds);
        }
        let mut offset: u16 = entry + 2; // the first two bytes are a header
        let mut x: u8 = 1;
        let mut y: u8 = 0;
        let mut fuel: u32 = MAX_STEPS;
        while fuel > 0
            invariant
                x < 16,
                y < 16,
                map@.len() == 256,
                fuel <= MAX_STEPS,
                walk(self.rom@, offset, x as int, y as int, map@, fuel as nat) == screen_map(self.rom@, chapter),
            decreases fuel,
        {
            let screen_addr = CHAIN_BANK | offset as u32;
            let direction_addr = CHAIN_BANK | (offset as u32 + 1);
            if !self.can_read(screen_addr, 1) || !self.can_read(direction_addr, 1) {
                return Err(MapError::OutOfBounds);
            }
            let screen = self.get_u8(screen_addr);
            let direction = self.get_u8(direction_addr);
            map.set(y as usize * 16 + x as usize, screen);
            if direction & 4 != 0 {
                return Ok(map);
            }
            if offset > 0xFFFD {
                return Err(MapError::OutOfBounds);
            }
            let (nx, ny) = move_position(x, y, direction);
            x = nx;
            y = ny;
            offset = offset + 2;
            fuel = fuel - 1;
        }
        Err(MapError::Unterminated)
    }
}

} // verus!
