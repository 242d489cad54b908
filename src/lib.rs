//! Reconstruction of an overworld map from a banked ROM image: address
//! translation, the walk of each chapter's screen chain, the expansion of
//! screens into tile rows, and the composition of tiles into one picture.
pub mod address;
pub mod rom;
pub mod walk;
pub mod layout;
pub mod expand;
pub mod compose;
pub mod export;
pub mod image;
pub mod laws;

pub use address::snes_to_effective;
pub use rom::Syvalion;
pub use walk::MapError;
pub use image::{read_image, save_image, SaveError};
pub use export::{chapter_in_range, tileset_id};
