//! Sorting media files into `<category>/<year>/` folders by their names.
//!
//! The library decides, for one directory entry at a time, whether the entry
//! is a media file that carries a date in its name and, if so, where below the
//! scanned root it belongs. Walking the tree and moving the files is left to
//! the caller.

pub mod category;
pub mod date_pattern;
pub mod file_name;
pub mod organizer;
pub mod tree;
