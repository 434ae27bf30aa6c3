//! Safe, verified ownership and marshaling layer around a native EXIF parser.
//!
//! The library owns the native metadata handle, decides when it is released,
//! turns fixed-size native text buffers into validated owned strings, and runs
//! the maker-note lookup over the ids that the native collection enumerates.
pub mod exif;
pub mod tags;
pub mod text;

pub use exif::{
    entry_value, locate_maker_note, maker_note_data, native_length, EntryError, EntryOutcome,
    Exif, ExifError, ExifIfd, ExifTag, MakerNoteData, MakerNoteError,
};
pub use text::{c_path, new_value_buffer, text_from_buffer, VALUE_BUFFER_LEN};
