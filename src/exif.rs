//! The metadata wrapper: ownership of the native handle, and the decisions
//! taken on what the native layer reports for tag and maker-note queries.
use vstd::prelude::*;

use crate::text::{buffer_text, text_from_buffer};

verus! {

/// Number of image-file-directories in a parsed image.
pub const IFD_COUNT: usize = 5;

/// The standard EXIF image-file-directories.
#[derive(Debug, PartialEq, Eq, Clone, Copy, Structural)]
pub enum ExifIfd {
    /// The primary image directory.
    Ifd0,
    /// The thumbnail directory.
    Ifd1,
    /// The EXIF-specific sub-directory.
    Exif,
    /// The GPS directory.
    Gps,
    /// The interoperability directory.
    Interoperability,
}

impl ExifIfd {
    /// Position of the directory in the native handle's directory table.
    pub open spec fn spec_index(self) -> int {
        match self {
            ExifIfd::Ifd0 => 0,
            ExifIfd::Ifd1 => 1,
            ExifIfd::Exif => 2,
            ExifIfd::Gps => 3,
            ExifIfd::Interoperability => 4,
        }
    }

    /// Position of the directory in the native handle's directory table.
    pub fn index(&self) -> (r: usize)
        ensures
            r as int == self.spec_index(),
            r < IFD_COUNT,
    {
        match self {
            ExifIfd::Ifd0 => 0,
            ExifIfd::Ifd1 => 1,
            ExifIfd::Exif => 2,
            ExifIfd::Gps => 3,
            ExifIfd::Interoperability => 4,
        }
    }
}

/// Identifier of a metadata field, as numbered by the EXIF tag table.
pub type ExifTag = u32;

/// Failure to build a wrapper.
#[derive(Debug, PartialEq, Eq, Clone, Copy, Structural)]
pub enum ExifError {
    /// The native parser rejected the input: a missing or unreadable file,
    /// or bytes that hold no recognizable EXIF data.
    ParseFailed,
}

/// Failure of a tag lookup.
#[derive(Debug, PartialEq, Eq, Clone, Copy, Structural)]
pub enum EntryError {
    /// The directory holds no entry for the tag.
    EntryNotFound,
    /// The native renderer returned no text.
    ExifFailed,
    /// The rendered bytes are not well-formed UTF-8.
    InvalidText,
}

/// Failure of a maker-note lookup.
#[derive(Debug, PartialEq, Eq, Clone, Copy, Structural)]
pub enum MakerNoteError {
    /// The native layer returned no text for a title or a value.
    ExifFailed,
    /// The image has no maker-note section.
    MakerNoteNotFound,
    /// The maker-note section exists but holds no entry with the requested id.
    MNoteTagNotFound,
    /// A rendered title or value is not well-formed UTF-8.
    InvalidText,
}

/// One maker-note entry.
#[derive(Debug, PartialEq, Clone)]
pub struct MakerNoteData {
    /// The tag id that was asked for.
    pub tag_id: u32,
    /// The human-readable title; may be empty.
    pub title: String,
    /// The human-readable value, e.g. f/5.6; may be empty.
    pub value: String,
}

/// Owner of one native metadata handle of type `H`.
///
/// The handle is held from a successful parse until it is released; it is
/// handed out for release once, and never again afterwards.
pub struct Exif<H> {
    handle: Option<H>,
}

impl<H> Exif<H> {
    /// The handle this wrapper currently owns, if it has not been released.
    pub closed spec fn held(&self) -> Option<H> {
        self.handle
    }

    /// Takes ownership of what the native parser returned: a handle, or
    /// nothing when it rejected the input. No wrapper exists without a handle.
    pub fn from_native(parsed: Option<H>) -> (r: Result<Exif<H>, ExifError>)
        ensures
            match parsed {
                Some(h) => r matches Ok(e) && e.held() == Some(h),
                None => r == Err::<Exif<H>, ExifError>(ExifError::ParseFailed),
            },
    {
        match parsed {
            Some(h) => Ok(Exif { handle: Some(h) }),
            None => Err(ExifError::ParseFailed),
        }
    }

    /// The owned handle, for a query, while it has not been released.
    pub fn handle(&self) -> (r: Option<&H>)
        ensures
            r is Some <==> self.held() is Some,
            r matches Some(h) ==> self.held() == Some(*h),
    {
        self.handle.as_ref()
    }

    /// Gives up the owned handle so that it can be freed: the first call
    /// returns it, and every later call returns `None`.
    pub fn release(&mut self) -> (r: Option<H>)
        ensures
            r == old(self).held(),
            final(self).held() is None,
    {
        self.handle.take()
    }
}

/// Number of handles handed out for freeing when `calls` releases are made on
/// a wrapper that holds `held`: each release hands out what the wrapper holds
/// and leaves it holding nothing.
pub open spec fn handles_released<H>(held: Option<H>, calls: nat) -> nat
    decreases calls,
{
    if calls == 0 {
        0
    } else {
        (if held is Some {
            1nat
        } else {
            0nat
        }) + handles_released::<H>(None, (calls - 1) as nat)
    }
}

/// Number of handles handed out for freeing over the life of what was built
/// from a parse result: a wrapper, released `calls` times, or no wrapper at all.
pub open spec fn lifetime_releases<H>(parsed: Option<H>, calls: nat) -> nat {
    match parsed {
        Some(h) => handles_released(Some(h), calls),
        None => 0,
    }
}

/// Exactly one handle is freed over the life of a wrapper built from a
/// successful parse, however many times a release is asked for (dropping the
/// wrapper asks once); when the parse failed no wrapper exists and nothing is
/// ever freed.
pub proof fn lemma_release_exactly_once<H>(parsed: Option<H>, calls: nat)
    requires
        calls >= 1,
    ensures
        lifetime_releases(parsed, calls) == (if parsed is Some {
            1nat
        } else {
            0nat
        }),
{
    if parsed is Some {
        lemma_nothing_left_to_release::<H>((calls - 1) as nat);
    }
}

/// Releasing a wrapper that holds nothing hands out nothing, however often.
pub proof fn lemma_nothing_left_to_release<H>(calls: nat)
    ensures
        handles_released::<H>(None, calls) == 0,
    decreases calls,
{
    if calls > 0 {
        lemma_nothing_left_to_release::<H>((calls - 1) as nat);
    }
}

/// The length of an in-memory EXIF buffer as the native parser takes it.
/// A buffer too long for that length cannot be parsed.
pub fn native_length(data: &[u8]) -> (r: Result<u32, ExifError>)
    ensures
        match r {
            Ok(n) => n as int == data@.len(),
            Err(e) => e == ExifError::ParseFailed && data@.len() > u32::MAX,
        },
{
    if data.len() <= u32::MAX as usize {
        Ok(data.len() as u32)
    } else {
        Err(ExifError::ParseFailed)
    }
}

/// What the native layer produced for one (directory, tag) query.
pub enum EntryOutcome {
    /// The directory holds no entry for the tag.
    Absent,
    /// The entry exists, but rendering it returned no text.
    RenderFailed,
    /// The entry was rendered into this buffer.
    Rendered(Vec<u8>),
}

/// The text, or the error, that a tag lookup gives for a native outcome.
pub open spec fn entry_result(outcome: EntryOutcome) -> Result<Seq<char>, EntryError> {
    match outcome {
        EntryOutcome::Absent => Err(EntryError::EntryNotFound),
        EntryOutcome::RenderFailed => Err(EntryError::ExifFailed),
        EntryOutcome::Rendered(b) => match buffer_text(b@) {
            Some(t) => Ok(t),
            None => Err(EntryError::InvalidText),
        },
    }
}

/// The view of a lookup's result: the characters of the string, or the error.
pub open spec fn text_result<E>(r: Result<String, E>) -> Result<Seq<char>, E> {
    match r {
        Ok(s) => Ok(s@),
        Err(e) => Err(e),
    }
}

/// The value of a tag, from what the native layer reported for it: the
/// rendered text copied out of the native buffer.
pub fn entry_value(outcome: EntryOutcome) -> (r: Result<String, EntryError>)
    ensures
        text_result(r) == entry_result(outcome),
{
    match outcome {
        EntryOutcome::Absent => Err(EntryError::EntryNotFound),
        EntryOutcome::RenderFailed => Err(EntryError::ExifFailed),
        EntryOutcome::Rendered(b) => match text_from_buffer(b.as_slice()) {
            Some(s) => Ok(s),
            None => Err(EntryError::InvalidText),
        },
    }
}

/// The two native outcomes report the same thing: both no entry, both no
/// text, or buffers with the same bytes.
pub open spec fn same_outcome(a: EntryOutcome, b: EntryOutcome) -> bool {
    match (a, b) {
        (EntryOutcome::Absent, EntryOutcome::Absent) => true,
        (EntryOutcome::RenderFailed, EntryOutcome::RenderFailed) => true,
        (EntryOutcome::Rendered(x), EntryOutcome::Rendered(y)) => x@ == y@,
        _ => false,
    }
}

/// A tag lookup depends on nothing but what the native layer reported: two
/// lookups on the same report give the same text, or the same error.
pub proof fn lemma_entry_value_deterministic(
    a: EntryOutcome,
    b: EntryOutcome,
    ra: Result<String, EntryError>,
    rb: Result<String, EntryError>,
)
    requires
        same_outcome(a, b),
        text_result(ra) == entry_result(a),
        text_result(rb) == entry_result(b),
    ensures
        text_result(ra) == text_result(rb),
{
}

/// `i` is the first position of the maker-note section whose id is `tag`.
pub open spec fn is_first_match(ids: Seq<u32>, tag: u32, i: int) -> bool {
    &&& 0 <= i < ids.len()
    &&& ids[i] == tag
    &&& forall|j: int| 0 <= j < i ==> ids[j] != tag
}

/// Finds the position to read for a maker-note id. `ids` are the ids of the
/// maker-note section in its enumeration order, or `None` when the image has
/// no such section. The first position whose id matches wins.
pub fn locate_maker_note(ids: Option<&[u32]>, tag: u32) -> (r: Result<usize, MakerNoteError>)
    ensures
        match ids {
            None => r == Err::<usize, MakerNoteError>(MakerNoteError::MakerNoteNotFound),
            Some(ids) => match r {
                Ok(i) => is_first_match(ids@, tag, i as int),
                Err(e) => e == MakerNoteError::MNoteTagNotFound && !ids@.contains(tag),
            },
        },
{
    match ids {
        None => Err(MakerNoteError::MakerNoteNotFound),
        Some(section) => {
            let mut i: usize = 0;
            while i < section.len()
                invariant
                    ids == Some(section),
                    0 <= i <= section@.len(),
                    forall|j: int| 0 <= j < i ==> section@[j] != tag,
                decreases section@.len() - i,
            {
                if section[i] == tag {
                    return Ok(i);
                }
                i = i + 1;
            }
            Err(MakerNoteError::MNoteTagNotFound)
        },
    }
}

/// The maker-note entry, or the error, for the title and value buffers that
/// the native layer rendered (`None` where it returned no text).
pub open spec fn maker_note_result(
    title: Option<Seq<u8>>,
    value: Option<Seq<u8>>,
) -> Result<(Seq<char>, Seq<char>), MakerNoteError> {
    match (title, value) {
        (Some(t), Some(v)) => match (buffer_text(t), buffer_text(v)) {
            (Some(tt), Some(vt)) => Ok((tt, vt)),
            _ => Err(MakerNoteError::InvalidText),
        },
        _ => Err(MakerNoteError::ExifFailed),
    }
}

/// The view of a buffer that the native layer may have left unfilled.
pub open spec fn buffer_view(b: Option<Vec<u8>>) -> Option<Seq<u8>> {
    match b {
        Some(v) => Some(v@),
        None => None,
    }
}

/// Builds the maker-note entry for `tag` from its rendered title and value.
/// Both are copied out, or neither: a missing or malformed one fails the whole.
pub fn maker_note_data(
    tag: u32,
    title: Option<Vec<u8>>,
    value: Option<Vec<u8>>,
) -> (r: Result<MakerNoteData, MakerNoteError>)
    ensures
        match r {
            Ok(d) => d.tag_id == tag && maker_note_result(buffer_view(title), buffer_view(value))
                == Ok::<(Seq<char>, Seq<char>), MakerNoteError>((d.title@, d.value@)),
            Err(e) => maker_note_result(buffer_view(title), buffer_view(value)) == Err::<
                (Seq<char>, Seq<char>),
                MakerNoteError,
            >(e),
        },
{
    match (title, value) {
        (Some(t), Some(v)) => {
            let title_text = text_from_buffer(t.as_slice());
            let value_text = text_from_buffer(v.as_slice());
            match (title_text, value_text) {
                (Some(tt), Some(vt)) => Ok(MakerNoteData { tag_id: tag, title: tt, value: vt }),
                _ => Err(MakerNoteError::InvalidText),
            }
        },
        _ => Err(MakerNoteError::ExifFailed),
    }
}

} // verus!
