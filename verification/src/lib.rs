//! Parsing of subrecords, the smallest typed, length-prefixed units inside
//! game plugin files, together with on-demand decompression of payloads that
//! the enclosing record flags as DEFLATE-compressed.

pub mod deflate;
pub mod game_id;
pub mod subrecord;
