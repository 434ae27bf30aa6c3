//! Identifiers of commonly read EXIF tags.
use vstd::prelude::*;

verus! {

/// Manufacturer of the recording equipment (primary directory).
pub const MAKE: u32 = 0x010f;

/// Model of the recording equipment (primary directory).
pub const MODEL: u32 = 0x0110;

/// Date and time the file was last changed (primary directory).
pub const DATE_TIME: u32 = 0x0132;

/// Date and time the original image was captured (EXIF directory).
pub const DATE_TIME_ORIGINAL: u32 = 0x9003;

/// Latitude (GPS directory).
pub const GPS_LATITUDE: u32 = 0x0002;

} // verus!
