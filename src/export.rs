use vstd::prelude::*;
use crate::rom::Syvalion;
use crate::walk::{screen_map, valid_chapter, MapError};
use crate::expand::tile_map;
use crate::compose::image;

verus! {

/// Tileset of each chapter, by chapter number.
pub open spec fn tileset_of(chapter: u8) -> u8 {
    seq![1u8, 2, 3, 1, 4][chapter - 1]
}

/// The picture of a chapter with the given tileset, or why it cannot be made.
pub open spec fn chapter_image(rom: Seq<u8>, chapter: u8, tileset: Seq<u8>) -> Result<Seq<u8>, MapError> {
    match screen_map(rom, chapter) {
        Err(e) => Err(e),
        Ok(grid) => match tile_map(rom, grid, chapter) {
            Err(e) => Err(e),
            Ok(tiles) => image(tiles, tileset),
        },
    }
}

/// Whether a chapter number can be exported.
pub fn chapter_in_range(chapter: u8) -> (r: bool)
    ensures
        r == valid_chapter(chapter),
{
    1 <= chapter && chapter <= 5
}

/// Number of the tileset picture that a chapter is drawn with.
pub fn tileset_id(chapter: u8) -> (r: u8)
    requires
        valid_chapter(chapter),
    ensures
        r == tileset_of(chapter),
{
    let table: [u8; 5] = [1, 2, 3, 1, 4];
    assert(table@ == seq![1u8, 2, 3, 1, 4]);
    table[chapter as usize - 1]
}

impl Syvalion {
    /// The 4096 by 4096 RGB picture of a chapter's map, drawn with the
    /// chapter's tileset pixels.
    pub fn print_map_image(&self, chapter: u8, tiles: &Vec<u8>) -> (r: Result<Vec<u8>, MapError>)
        requires
            valid_chapter(chapter),
        ensures
            match r {
                Ok(p) => chapter_image(self.rom@, chapter, tiles@) == Ok::<Seq<u8>, MapError>(p@),
                Err(e) => chapter_image(self.rom@, chapter, tiles@) == Err::<Seq<u8>, MapError>(e),
            },
    {
        let map = match self.generate_map(chapter) {
            Ok(m) => m,
            Err(e) => return Err(e),
        };
        let tile_map = match self.generate_tile_map(&map, chapter) {
            Ok(t) => t,
            Err(e) => return Err(e),
        };
        Syvalion::generate_image(&tile_map, tiles)
    }

    /// The picture of any chapter number: one outside the chapter tables is
    /// turned away before any table is read.
    pub fn export_chapter_map(&self, chapter: u8, tiles: &Vec<u8>) -> (r: Result<Vec<u8>, MapError>)
        ensures
            !valid_chapter(chapter) ==> r == Err::<Vec<u8>, MapError>(MapError::ChapterOutOfRange),
            valid_chapter(chapter) ==> match r {
                Ok(p) => chapter_image(self.rom@, chapter, tiles@) == Ok::<Seq<u8>, MapError>(p@),
                Err(e) => chapter_image(self.rom@, chapter, tiles@) == Err::<Seq<u8>, MapError>(e),
            },
    {
        if !chapter_in_range(chapter) {
            return Err(MapError::ChapterOutOfRange);
        }
        self.print_map_image(chapter, tiles)
    }
}

} // verus!
