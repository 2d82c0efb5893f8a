//! Identifier hashing, keyed message stores and colour codes for game-asset text tooling.

pub mod color;
pub mod digits;
pub mod hash;
pub mod index_map;
pub mod message;
pub mod player_color;

pub use color::{EntryKey, RGB};
pub use hash::hash;
pub use message::{
    get_asbr_adx2_file_index, get_asbr_adx2_filename, Entry, Language, MessageInfo, Reference,
};
