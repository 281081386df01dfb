//! Verified core of the EHCE game model: validated numbers, integer ranges,
//! unit signals, mod path handling and the game's state decisions.

pub mod numbers;
pub mod signals;
pub mod mod_paths;
pub mod byte_reader;
pub mod mod_index;
pub mod loading;
pub mod parsing;
pub mod json5_asset;
pub mod player_input;
pub mod textures;
pub mod dir_listing;
pub mod combat;
pub mod color;
