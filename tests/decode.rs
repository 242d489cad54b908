use syvalion::{chapter_in_range, read_image, save_image, snes_to_effective, tileset_id, MapError, SaveError, Syvalion};

const ROM_LEN: usize = 0x40000;
const TILE_DATA: usize = 0x38000;

fn pattern(i: usize) -> u8 {
    (i % 251) as u8
}

/// A ROM whose chapter 1 points at a chain of the given (screen, direction)
/// nodes. The first node's screen picks the tile-data table entry that holds
/// base 0x078000; the entry that the header's first byte would pick holds
/// another base, 0x07C000.
fn rom_with_chain(nodes: &[(u8, u8)]) -> Vec<u8> {
    let mut rom = vec![0u8; ROM_LEN];
    for i in TILE_DATA..ROM_LEN {
        rom[i] = pattern(i);
    }
    // chapter 1 entry pointer: 0x9000 in bank 6
    rom[0x33831] = 0x00;
    rom[0x33832] = 0x90;
    // two-byte header, skipped by the walk
    rom[0x31000] = 2;
    rom[0x31001] = 0xEE;
    for (n, (screen, direction)) in nodes.iter().enumerate() {
        rom[0x31002 + 2 * n] = *screen;
        rom[0x31003 + 2 * n] = *direction;
    }
    // tile-data table entry 2 (the header byte): base 0x07C000
    rom[0x34807] = 0x00;
    rom[0x34808] = 0xC0;
    rom[0x34809] = 0x07;
    // tile-data table entry of the first node's screen: base 0x078000
    let slot = 0x347FF + 4 * nodes[0].0 as usize;
    rom[slot] = 0x00;
    rom[slot + 1] = 0x80;
    rom[slot + 2] = 0x07;
    rom
}

fn scenario_rom() -> Vec<u8> {
    rom_with_chain(&[(0x05, 0), (0x06, 1), (0x07, 2), (0x08, 3 | 4)])
}

#[test]
fn translation_reference_addresses() {
    assert_eq!(snes_to_effective(0x008000), 0);
    assert_eq!(snes_to_effective(0x018000), 0x8000);
    assert_eq!(snes_to_effective(0x06B831), 0x33831);
    assert_eq!(snes_to_effective(0x06FFFF), 0x37FFF);
    assert_eq!(snes_to_effective(0x078000), 0x38000);
}

#[test]
fn translation_below_window_wraps_in_bank() {
    // an in-bank offset below 0x8000 lands in the upper half of the bank's window
    assert_eq!(snes_to_effective(0x060000), 0x30000 + 0x8000);
    assert_eq!(snes_to_effective(0x060000), snes_to_effective(0x060000));
}

#[test]
fn readers_are_little_endian() {
    let mut rom = vec![0u8; 0x10];
    rom[0] = 0x12;
    rom[1] = 0x34;
    rom[2] = 0x56;
    let s = Syvalion::new(rom);
    assert_eq!(s.get_u8(0x008000), 0x12);
    assert_eq!(s.make_u16(0x008000), 0x3412);
    assert_eq!(s.make_u24(0x008000), 0x563412);
    assert!(s.can_read(0x008000, 16));
    assert!(!s.can_read(0x008001, 16));
}

#[test]
fn wraparound_moves() {
    assert_eq!(syvalion::walk::move_position(0, 4, 2), (15, 4));
    assert_eq!(syvalion::walk::move_position(15, 4, 0), (0, 4));
    assert_eq!(syvalion::walk::move_position(3, 0, 1), (3, 15));
    assert_eq!(syvalion::walk::move_position(3, 15, 3), (3, 0));
    assert_eq!(syvalion::walk::move_position(3, 7, 4 | 3), (3, 8));
}

#[test]
fn walk_scenario_records_each_node() {
    let s = Syvalion::new(scenario_rom());
    let grid = s.generate_map(1).unwrap();
    assert_eq!(grid.len(), 256);
    assert_eq!(grid[0 * 16 + 1], 0x05);
    assert_eq!(grid[0 * 16 + 2], 0x06);
    assert_eq!(grid[15 * 16 + 2], 0x07);
    assert_eq!(grid[15 * 16 + 1], 0x08);
    let written = [1usize, 2, 15 * 16 + 2, 15 * 16 + 1];
    for i in 0..256 {
        if !written.contains(&i) {
            assert_eq!(grid[i], 0x15);
        }
    }
}

#[test]
fn walk_without_terminal_is_unterminated() {
    let nodes = vec![(0x01u8, 0u8); 300];
    let s = Syvalion::new(rom_with_chain(&nodes));
    assert_eq!(s.generate_map(1), Err(MapError::Unterminated));
}

#[test]
fn walk_terminal_at_last_allowed_node() {
    let mut nodes = vec![(0x01u8, 0u8); 256];
    nodes[255] = (0x09, 4);
    let s = Syvalion::new(rom_with_chain(&nodes));
    let grid = s.generate_map(1).unwrap();
    // 256 east moves from (1, 0) wrap around row 0 sixteen times
    assert_eq!(grid[0], 0x09);
    assert_eq!(grid[1], 0x01);
    assert_eq!(grid[16], 0x15);
}

#[test]
fn walk_on_short_rom_is_out_of_bounds() {
    let s = Syvalion::new(vec![0u8; 0x1000]);
    assert_eq!(s.generate_map(1), Err(MapError::OutOfBounds));
}

#[test]
fn tile_map_copies_screen_rows() {
    let s = Syvalion::new(scenario_rom());
    let grid = s.generate_map(1).unwrap();
    let tiles = s.generate_tile_map(&grid, 1).unwrap();
    assert_eq!(tiles.len(), 65536);
    // screen 0x05 at (1, 0), line 3, byte 5
    assert_eq!(tiles[1 * 16 + 3 * 256 + 0 * 4096 + 5], pattern(TILE_DATA + 0x05 * 0x100 + 3 * 0x10 + 5));
    // screen 0x07 at (2, 15), line 15, byte 15
    assert_eq!(tiles[2 * 16 + 15 * 256 + 15 * 4096 + 15], pattern(TILE_DATA + 0x07 * 0x100 + 15 * 0x10 + 15));
    // a sentinel screen at (0, 0), line 0, byte 0
    assert_eq!(tiles[0], pattern(TILE_DATA + 0x15 * 0x100));
    let again = s.generate_tile_map(&grid, 1).unwrap();
    assert_eq!(tiles, again);
}

#[test]
fn tile_data_is_selected_by_first_node_screen() {
    let s = Syvalion::new(scenario_rom());
    let grid = s.generate_map(1).unwrap();
    let tiles = s.generate_tile_map(&grid, 1).unwrap();
    // rows come from base 0x078000 (flat 0x38000), not from 0x07C000 (flat 0x3C000)
    let from_first_node = pattern(TILE_DATA + 0x05 * 0x100);
    let from_header = pattern(0x3C000 + 0x05 * 0x100);
    assert_ne!(from_first_node, from_header);
    assert_eq!(tiles[1 * 16], from_first_node);
}

#[test]
fn tile_map_with_entry_at_bank_end_is_out_of_bounds() {
    let mut rom = scenario_rom();
    rom[0x33831] = 0xFE;
    rom[0x33832] = 0xFF;
    let s = Syvalion::new(rom);
    let grid = vec![0x15u8; 256];
    assert_eq!(s.generate_tile_map(&grid, 1), Err(MapError::OutOfBounds));
}

#[test]
fn chapter_outside_tables_is_rejected() {
    let s = Syvalion::new(scenario_rom());
    let set = tileset();
    assert_eq!(s.export_chapter_map(0, &set), Err(MapError::ChapterOutOfRange));
    assert_eq!(s.export_chapter_map(6, &set), Err(MapError::ChapterOutOfRange));
    assert_eq!(s.export_chapter_map(255, &set), Err(MapError::ChapterOutOfRange));
}

#[test]
fn screen_line_is_sixteen_bytes() {
    let s = Syvalion::new(scenario_rom());
    let row = s.get_screen_line(0x05, 0x078000, 2);
    let start = TILE_DATA + 0x500 + 0x20;
    let expected: Vec<u8> = (start..start + 16).map(pattern).collect();
    assert_eq!(row, &expected[..]);
}

#[test]
fn tile_map_with_missing_rows_is_out_of_bounds() {
    let mut rom = scenario_rom();
    rom.truncate(TILE_DATA + 0x100);
    let s = Syvalion::new(rom);
    let grid = s.generate_map(1).unwrap();
    assert_eq!(s.generate_tile_map(&grid, 1), Err(MapError::OutOfBounds));
}

fn tileset() -> Vec<u8> {
    (0..128 * 512 * 3).map(|i| (i % 253) as u8).collect()
}

#[test]
fn tile_offsets_follow_the_atlas() {
    assert_eq!(syvalion::compose::tile_offset(0, 0), 0);
    assert_eq!(syvalion::compose::tile_offset(1, 0), 48);
    assert_eq!(syvalion::compose::tile_offset(8, 0), 6144);
    assert_eq!(syvalion::compose::tile_offset(9, 2), 48 + 6144 + 768);
    assert_eq!(syvalion::compose::tile_offset(255, 15), 7 * 48 + 31 * 6144 + 15 * 384);
}

#[test]
fn image_blocks_come_from_their_tile() {
    let mut tile_map = vec![0u8; 65536];
    tile_map[0] = 9;
    tile_map[3 * 256 + 7] = 255;
    let set = tileset();
    let out = Syvalion::generate_image(&tile_map, &set).unwrap();
    assert_eq!(out.len(), 4096 * 4096 * 3);
    // tile 9 at (0, 0), pixel row 2, byte 5
    assert_eq!(out[2 * 12288 + 5], set[48 + 6144 + 2 * 384 + 5]);
    // tile 255 at (7, 3), pixel row 15, byte 47
    assert_eq!(out[3 * 196608 + 7 * 48 + 15 * 12288 + 47], set[7 * 48 + 31 * 6144 + 15 * 384 + 47]);
    // tile 0 at (1, 0), pixel row 0, byte 0
    assert_eq!(out[48], set[0]);
}

#[test]
fn image_with_short_tileset_is_rejected() {
    let mut tile_map = vec![0u8; 65536];
    tile_map[100] = 8;
    let set = vec![0u8; 6144];
    assert_eq!(Syvalion::generate_image(&tile_map, &set), Err(MapError::TileOutOfRange));
    let ok = vec![0u8; 6144];
    assert!(Syvalion::generate_image(&vec![0u8; 65536], &ok).is_ok());
}

#[test]
fn chapter_picture_end_to_end() {
    let s = Syvalion::new(scenario_rom());
    let set = tileset();
    let picture = s.print_map_image(1, &set).unwrap();
    assert_eq!(s.export_chapter_map(1, &set).unwrap(), picture);
    assert_eq!(picture.len(), 4096 * 4096 * 3);
    let grid = s.generate_map(1).unwrap();
    let tiles = s.generate_tile_map(&grid, 1).unwrap();
    let direct = Syvalion::generate_image(&tiles, &set).unwrap();
    assert_eq!(picture, direct);
}

#[test]
fn tileset_table_and_chapter_range() {
    assert_eq!(tileset_id(1), 1);
    assert_eq!(tileset_id(2), 2);
    assert_eq!(tileset_id(3), 3);
    assert_eq!(tileset_id(4), 1);
    assert_eq!(tileset_id(5), 4);
    assert!(!chapter_in_range(0));
    assert!(chapter_in_range(1));
    assert!(chapter_in_range(5));
    assert!(!chapter_in_range(6));
}

#[test]
fn png_round_trip() {
    let pixels: Vec<u8> = (0..2 * 3 * 3).map(|i| (i * 13) as u8).collect();
    let png = save_image(&pixels, 2, 3).unwrap();
    assert_eq!(&png[1..4], b"PNG");
    assert_ne!(png, pixels);
    assert_eq!(read_image(&png), Some(pixels));
}

#[test]
fn png_size_mismatch_and_bad_input() {
    assert_eq!(save_image(&[0u8; 10], 2, 2), Err(SaveError::SizeMismatch));
    assert_eq!(read_image(b"not a picture"), None);
}
