//! The per-image record: identity, decoded metadata, the decoded pixel
//! buffer (present while the image is resident), the composed orientation,
//! and the mark-link binding with its tri-state observation.
//!
//! Pixels are 32-bit packed values, one per pixel, stride = width * 4
//! bytes. A failed decode installs a sentinel buffer-less value so that
//! the image still counts as loaded and is rendered as a placeholder.

use vstd::prelude::*;
use vstd::string::StringExecFns;

use crate::codecs::{CodecError, CodecMetadata, Codecs};
use crate::numeric::{DimensionsU32, Xu32, Yu32};
use crate::orientation::Orientation;

verus! {

/// A mark command issued against the current image.
#[derive(Debug, Copy, Clone, PartialEq, Eq, Structural)]
pub enum Mark {
    SetMark,
    Toggle,
    Unset,
}

/// The symlink binding of a marked image: the link's own path and the
/// target it must carry (the image path relative to the mark directory).
#[derive(Debug, Clone)]
pub struct Link {
    pub name: String,
    pub target: String,
}

/// The outcome of reading the symlink at a link's path.
#[derive(Debug, Clone)]
pub enum LinkRead {
    /// The link exists and points at this target.
    Found(String),
    /// The link does not exist.
    NotFound,
    /// The link could not be read for another reason.
    Failed,
}

/// Format of a decoded pixel buffer.
#[derive(Debug, Copy, Clone, PartialEq, Eq, Structural)]
pub enum PixelFormat {
    /// 32-bit packed pixels with an unused byte: x8r8g8b8.
    Rgb24,
    /// The sentinel format of a failed decode.
    Invalid,
}

/// A decoded pixel buffer; `data` is absent for the failed-decode
/// sentinel.
#[derive(Debug)]
pub struct ImageData {
    pub data: Option<Vec<u32>>,
    pub format: PixelFormat,
    pub width: i32,
    pub height: i32,
    pub stride: i32,
}

/// A zero-filled pixel buffer under construction, to be filled in place
/// by a codec.
#[derive(Debug)]
pub struct ImageDataBuilder {
    pub buffer: Vec<u32>,
    pub format: PixelFormat,
    pub width: i32,
    pub height: i32,
    pub stride: i32,
}

/// Which error `ImageData::builder` reports for the given dimensions, if
/// any: the width and height must fit an `i32`, the stride (width * 4
/// bytes) must fit an `i32`, and the whole buffer must be addressable.
pub open spec fn spec_builder_error(d: DimensionsU32) -> Option<CodecError> {
    let w = d.width.spec_value();
    let h = d.height.spec_value();
    if w > 0x7FFF_FFFF {
        Some(CodecError::TooWide)
    } else if h > 0x7FFF_FFFF {
        Some(CodecError::TooTall)
    } else if w > usize::MAX / 4 {
        Some(CodecError::TooWide)
    } else if 4 * w > 0x7FFF_FFFF {
        Some(CodecError::UnsupportedStride)
    } else if w > 0 && h > (usize::MAX as int) / (4 * w) {
        Some(CodecError::TooLarge)
    } else {
        None
    }
}

/// The sentinel value installed when a decode fails.
pub open spec fn spec_failed_data() -> ImageData {
    ImageData { data: None, format: PixelFormat::Invalid, width: -1i32, height: -1i32, stride: -1i32 }
}

impl ImageData {
    /// A zero-filled buffer of one 32-bit pixel per image pixel, with
    /// stride = width * 4 bytes.
    pub fn builder(dimensions: DimensionsU32) -> (r: Result<ImageDataBuilder, CodecError>)
        ensures
            match spec_builder_error(dimensions) {
                Some(e) => r == Err::<ImageDataBuilder, CodecError>(e),
                None => match r {
                    Ok(b) => {
                        &&& b.buffer@ == Seq::new(
                            (dimensions.width.spec_value() * dimensions.height.spec_value()) as nat,
                            |i: int| 0u32,
                        )
                        &&& b.format == PixelFormat::Rgb24
                        &&& b.width == dimensions.width.spec_value()
                        &&& b.height == dimensions.height.spec_value()
                        &&& b.stride == 4 * dimensions.width.spec_value()
                    },
                    Err(_) => false,
                },
            },
    {
        let w = dimensions.width.value();
        let h = dimensions.height.value();

        if w > 0x7FFF_FFFF {
            return Err(CodecError::TooWide);
        }
        if h > 0x7FFF_FFFF {
            return Err(CodecError::TooTall);
        }
        if w as usize > usize::MAX / 4 {
            return Err(CodecError::TooWide);
        }
        let stride64: u64 = 4 * (w as u64);
        if stride64 > 0x7FFF_FFFF {
            return Err(CodecError::UnsupportedStride);
        }
        let stride: u32 = stride64 as u32;
        if w > 0 && h as usize > usize::MAX / (stride as usize) {
            return Err(CodecError::TooLarge);
        }
        proof {
            assert((w as int) * (h as int) <= usize::MAX as int) by (nonlinear_arith)
                requires
                    w > 0 ==> h as int <= usize::MAX as int / (4 * w as int),
                    0 <= w as int,
                    0 <= h as int,
                    w as int <= usize::MAX as int / 4,
            ;
        }
        let elements: usize = (w as usize) * (h as usize);
        Ok(
            ImageDataBuilder {
                buffer: vec![0u32; elements],
                format: PixelFormat::Rgb24,
                width: w as i32,
                height: h as i32,
                stride: stride as i32,
            },
        )
    }

    /// The sentinel installed when a decode fails.
    pub fn failed() -> (r: ImageData)
        ensures
            r == spec_failed_data(),
    {
        ImageData { data: None, format: PixelFormat::Invalid, width: -1, height: -1, stride: -1 }
    }
}

impl ImageDataBuilder {
    /// The finished buffer.
    pub fn into_image_data(self) -> (r: ImageData)
        ensures
            r.data == Some(self.buffer),
            r.format == self.format,
            r.width == self.width,
            r.height == self.height,
            r.stride == self.stride,
    {
        ImageData {
            data: Some(self.buffer),
            format: self.format,
            width: self.width,
            height: self.height,
            stride: self.stride,
        }
    }
}

/// What a symlink read observes, as a mark tri-state: an absent link is
/// "unmarked", a link with the expected target is "marked", and a foreign
/// target or a read failure is "unknown".
pub open spec fn spec_mark_state(target: Seq<char>, read: LinkRead) -> Option<bool> {
    match read {
        LinkRead::NotFound => Some(false),
        LinkRead::Failed => None,
        LinkRead::Found(t) => if t@ == target {
            Some(true)
        } else {
            None
        },
    }
}

/// Whether a mark command wants the link present, given a fresh
/// observation of the link.
pub open spec fn spec_mark_desired(mark: Mark, observed: Option<bool>) -> bool {
    match mark {
        Mark::SetMark => true,
        Mark::Toggle => !observed.unwrap_or(false),
        Mark::Unset => false,
    }
}

/// The link state after writing: creating the link succeeds only when no
/// link exists (an existing one, whatever its target, is left alone);
/// removing always leaves no link.
pub open spec fn spec_write_link(desired: bool, target: Seq<char>, fs: Option<Seq<char>>) -> Option<
    Seq<char>,
> {
    if desired {
        match fs {
            None => Some(target),
            Some(t) => Some(t),
        }
    } else {
        None
    }
}

/// The tri-state a link state observes as.
pub open spec fn spec_observe(fs: Option<Seq<char>>, target: Seq<char>) -> Option<bool> {
    match fs {
        None => Some(false),
        Some(t) => if t == target {
            Some(true)
        } else {
            None
        },
    }
}

/// The link state after a whole mark command: observe, decide, write.
pub open spec fn spec_apply_mark(mark: Mark, target: Seq<char>, fs: Option<Seq<char>>) -> Option<
    Seq<char>,
> {
    spec_write_link(spec_mark_desired(mark, spec_observe(fs, target)), target, fs)
}

/// After `Set` the mark observes as "marked", provided no foreign link
/// already occupies the name (creating a link cannot replace one).
pub proof fn lemma_mark_set(target: Seq<char>, fs: Option<Seq<char>>)
    requires
        fs is None || fs == Some(target),
    ensures
        spec_observe(spec_apply_mark(Mark::SetMark, target, fs), target) == Some(true),
{
}

/// After `Unset` the mark observes as "unmarked", from any prior state.
pub proof fn lemma_mark_unset(target: Seq<char>, fs: Option<Seq<char>>)
    ensures
        spec_observe(spec_apply_mark(Mark::Unset, target, fs), target) == Some(false),
{
}

/// Two `Toggle`s in a row restore the original link state, from any
/// prior state.
pub proof fn lemma_mark_toggle_twice(target: Seq<char>, fs: Option<Seq<char>>)
    ensures
        spec_apply_mark(Mark::Toggle, target, spec_apply_mark(Mark::Toggle, target, fs)) == fs,
{
}

/// Whether a symlink read faithfully reflects a link state: an absent
/// link reads as not-found, a present one as its target.
pub open spec fn spec_reads_link(read: LinkRead, fs: Option<Seq<char>>) -> bool {
    match (read, fs) {
        (LinkRead::NotFound, None) => true,
        (LinkRead::Found(t), Some(s)) => t@ == s,
        _ => false,
    }
}

/// A faithful re-read observes exactly what the link state observes as:
/// what `refresh_mark` commits is the model's observation.
pub proof fn lemma_read_observes(target: Seq<char>, fs: Option<Seq<char>>, read: LinkRead)
    requires
        spec_reads_link(read, fs),
    ensures
        spec_mark_state(target, read) == spec_observe(fs, target),
{
}

/// After `Set`, a faithful re-read commits "marked", provided no foreign
/// link already occupies the name.
pub proof fn lemma_mark_set_observed(target: Seq<char>, fs: Option<Seq<char>>, read: LinkRead)
    requires
        fs is None || fs == Some(target),
        spec_reads_link(read, spec_apply_mark(Mark::SetMark, target, fs)),
    ensures
        spec_mark_state(target, read) == Some(true),
{
    lemma_mark_set(target, fs);
    lemma_read_observes(target, spec_apply_mark(Mark::SetMark, target, fs), read);
}

/// After `Unset`, a faithful re-read commits "unmarked", from any prior
/// state.
pub proof fn lemma_mark_unset_observed(target: Seq<char>, fs: Option<Seq<char>>, read: LinkRead)
    requires
        spec_reads_link(read, spec_apply_mark(Mark::Unset, target, fs)),
    ensures
        spec_mark_state(target, read) == Some(false),
{
    lemma_mark_unset(target, fs);
    lemma_read_observes(target, spec_apply_mark(Mark::Unset, target, fs), read);
}

/// Whether a mark command wants the link present, given a fresh
/// observation of the link.
pub fn mark_desired(mark: Mark, observed: Option<bool>) -> (r: bool)
    ensures
        r == spec_mark_desired(mark, observed),
{
    match mark {
        Mark::SetMark => true,
        Mark::Toggle => !observed.unwrap_or(false),
        Mark::Unset => false,
    }
}

/// The tri-state that a symlink read observes as, against the expected
/// target.
pub fn mark_state_of(target: &String, read: &LinkRead) -> (r: Option<bool>)
    ensures
        r == spec_mark_state(target@, *read),
{
    match read {
        LinkRead::NotFound => Some(false),
        LinkRead::Failed => None,
        LinkRead::Found(t) => if t.eq(target) {
            Some(true)
        } else {
            None
        },
    }
}

/// The central image record.
#[derive(Debug)]
pub struct Image {
    /// Process-unique stable identifier; identity survives path changes.
    pub id: u64,
    pub filename: String,
    pub codec: Codecs,
    pub metadata: CodecMetadata,
    pub mark_link: Option<Link>,
    /// Mark tri-state: unknown, marked, unmarked.
    pub marked: Option<bool>,
    /// The decoded pixels; presence means the image is loaded.
    pub data: Option<ImageData>,
    /// The composed orientation, initialized from the file metadata.
    pub orientation: Orientation,
}

impl Image {
    /// A fresh record: no pixels, mark state unknown, orientation from
    /// the metadata.
    pub fn new(
        id: u64,
        filename: String,
        codec: Codecs,
        metadata: CodecMetadata,
        mark_link: Option<Link>,
    ) -> (r: Image)
        ensures
            r.id == id,
            r.filename@ == filename@,
            r.codec == codec,
            r.metadata == metadata,
            r.mark_link == mark_link,
            r.marked is None,
            r.data is None,
            r.orientation == metadata.orientation,
    {
        let orientation = metadata.orientation;
        Image {
            id,
            filename,
            codec,
            metadata,
            mark_link,
            marked: None,
            data: None,
            orientation,
        }
    }

    pub fn width(&self) -> (r: Xu32)
        ensures
            r == self.metadata.dimensions.width,
    {
        self.metadata.dimensions.width
    }

    pub fn height(&self) -> (r: Yu32)
        ensures
            r == self.metadata.dimensions.height,
    {
        self.metadata.dimensions.height
    }

    /// Commit a decode outcome: a successful decode installs its buffer,
    /// a failed one installs the sentinel. Either way the image is
    /// loaded afterwards.
    pub fn load(&mut self, primary: Result<ImageData, CodecError>)
        ensures
            final(self).data == match primary {
                Ok(d) => Some(d),
                Err(_) => Some(spec_failed_data()),
            },
            final(self).id == old(self).id,
            final(self).filename == old(self).filename,
            final(self).codec == old(self).codec,
            final(self).metadata == old(self).metadata,
            final(self).mark_link == old(self).mark_link,
            final(self).marked == old(self).marked,
            final(self).orientation == old(self).orientation,
    {
        self.data = Some(
            match primary {
                Ok(d) => d,
                Err(_) => ImageData::failed(),
            },
        );
    }

    /// Whether a decoded buffer (or the failed sentinel) is installed.
    pub fn loaded(&self) -> (r: bool)
        ensures
            r == (self.data is Some),
    {
        self.data.is_some()
    }

    /// Release the decoded pixels.
    pub fn unload(&mut self)
        ensures
            *final(self) == (Image { data: None, ..*old(self) }),
    {
        self.data = None;
    }

    pub fn orientation(&self) -> (r: Orientation)
        ensures
            r == self.orientation,
    {
        self.orientation
    }

    /// Compose a further orientation change onto this image.
    pub fn add_orientation(&mut self, add: Orientation) -> (r: Orientation)
        ensures
            *final(self) == (Image {
                orientation: old(self).orientation.spec_plus(add),
                ..*old(self)
            }),
            r == final(self).orientation,
    {
        self.orientation = self.orientation.plus(add);
        self.orientation
    }

    pub fn marked(&self) -> (r: Option<bool>)
        ensures
            r == self.marked,
    {
        self.marked
    }

    /// Commit a fresh observation of the mark link. Without a mark
    /// binding the state is always unknown.
    pub fn refresh_mark(&mut self, read: &LinkRead)
        ensures
            *final(self) == (Image {
                marked: match old(self).mark_link {
                    Some(link) => spec_mark_state(link.target@, *read),
                    None => None,
                },
                ..*old(self)
            }),
    {
        self.marked = match &self.mark_link {
            Some(link) => mark_state_of(&link.target, read),
            None => None,
        };
    }
}


/// The relative path from `base` to `path` that the path-difference
/// routine computes, when one exists.
pub uninterp spec fn rel_path_of(path: Seq<char>, base: Seq<char>) -> Option<Seq<char>>;

/// Relies on pathdiff::diff_paths: the relative path from the canonical
/// mark directory to the canonical image path, a function of the two
/// paths alone.
#[verifier::external_body]
fn diff_paths_str(path: &str, base: &str) -> (r: Option<String>)
    ensures
        match (r, rel_path_of(path@, base@)) {
            (Some(s), Some(t)) => s@ == t,
            (None, None) => true,
            _ => false,
        },
{
    pathdiff::diff_paths(path, base).map(|p| p.to_string_lossy().into_owned())
}

/// The mark binding of an image: a symlink in the mark directory, under
/// the image's base name, whose target is the canonical image path
/// relative to the canonical mark directory. Absent when no mark
/// directory is configured or no relative path exists.
pub fn mark_link(
    canonical_mark_directory: Option<&String>,
    canonical_filename: &String,
    basename: &String,
) -> (r: Option<Link>)
    ensures
        match canonical_mark_directory {
            None => r is None,
            Some(dir) => match rel_path_of(canonical_filename@, dir@) {
                Some(target) => r is Some && r->Some_0.name@ == dir@ + seq!['/'] + basename@
                    && r->Some_0.target@ == target,
                None => r is None,
            },
        },
{
    match canonical_mark_directory {
        Some(dir) => match diff_paths_str(canonical_filename.as_str(), dir.as_str()) {
            Some(target) => {
                let mut name = dir.clone();
                name.append("/");
                name.append(basename.as_str());
                proof {
                    reveal_strlit("/");
                    assert(name@ =~= dir@ + seq!['/'] + basename@);
                }
                Some(Link { name, target })
            },
            None => None,
        },
        None => None,
    }
}

} // verus!
