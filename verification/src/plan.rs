//! The planner: normalizes extensions, chooses the strategy and the backend,
//! validates conversion options, and builds an immutable plan together with
//! its ordered advisory notes.

use vstd::prelude::*;
use crate::detect::DetectedType;
use crate::pathing::ext_of_spec;
use crate::pathing::extension_of;
use crate::strings::all_digits;
use crate::strings::digits_in_range;
use crate::strings::has_visible;
use crate::strings::has_visible_char;
use crate::strings::is_digit;
use crate::strings::lower_spec;
use crate::strings::lemma_seq_views_push;
use crate::strings::seq_views;
use crate::strings::str_eq;
use crate::strings::to_lower;

verus! {

/// Top-level operation kind for one source/destination pair.
#[derive(Clone, Copy, Debug, PartialEq, Eq, Structural)]
pub enum Strategy {
    RenameOnly,
    CopyOnly,
    Convert,
}

/// External tool family used to perform a conversion.
#[derive(Clone, Copy, Debug, PartialEq, Eq, Structural)]
pub enum Backend {
    ImageMagick,
    Ffmpeg,
    LibreOffice,
}

/// Coarse classification of a destination extension.
#[derive(Clone, Copy, Debug, PartialEq, Eq, Structural)]
pub enum MediaKind {
    Image,
    Audio,
    Video,
    Document,
    Other,
}

/// Requested ffmpeg behaviour: decide at execution time, force stream copy,
/// or force a re-encode.
#[derive(Clone, Copy, Debug, PartialEq, Eq, Structural)]
pub enum FfmpegPreference {
    Auto,
    StreamCopy,
    Transcode,
}

/// The mode an ffmpeg invocation actually runs in.
#[derive(Clone, Copy, Debug, PartialEq, Eq, Structural)]
pub enum FfmpegMode {
    StreamCopy,
    Transcode,
}

/// Conversion options; all empty by default except the ffmpeg preference.
#[derive(Debug, Clone)]
pub struct ConversionOptions {
    pub image_quality: Option<u8>,
    pub video_bitrate: Option<String>,
    pub audio_bitrate: Option<String>,
    pub preset: Option<String>,
    pub video_codec: Option<String>,
    pub audio_codec: Option<String>,
    pub ffmpeg_preference: FfmpegPreference,
}

impl Default for ConversionOptions {
    /// All options empty; the ffmpeg preference is `Auto`.
    fn default() -> (r: Self)
        ensures
            r.image_quality is None,
            r.video_bitrate is None,
            r.audio_bitrate is None,
            r.preset is None,
            r.video_codec is None,
            r.audio_codec is None,
            r.ffmpeg_preference == FfmpegPreference::Auto,
    {
        ConversionOptions {
            image_quality: None,
            video_bitrate: None,
            audio_bitrate: None,
            preset: None,
            video_codec: None,
            audio_codec: None,
            ffmpeg_preference: FfmpegPreference::Auto,
        }
    }
}

/// Immutable description of one source-to-destination operation.
#[derive(Debug, Clone)]
pub struct Plan {
    pub source: String,
    pub destination: String,
    pub detected: DetectedType,
    pub strategy: Strategy,
    pub backend: Option<Backend>,
    pub notes: Vec<String>,
    pub move_source: bool,
    pub backup: bool,
    pub options: ConversionOptions,
    pub dest_ext: Option<String>,
    pub dest_kind: MediaKind,
}

/// Why a plan could not be built.
#[derive(Clone, Copy, Debug, PartialEq, Eq, Structural)]
pub enum PlanError {
    SourceEqualsDestination,
    InvalidImageQuality,
    InvalidVideoBitrate,
    InvalidAudioBitrate,
    InvalidPreset,
    EmptyVideoCodec,
    EmptyAudioCodec,
}

impl PlanError {
    /// Human-readable description of the validation failure.
    pub fn message(&self) -> (r: String)
        ensures
            r@ == plan_error_message_spec(*self),
    {
        match self {
            PlanError::SourceEqualsDestination => String::from_str(
                "source and destination must differ",
            ),
            PlanError::InvalidImageQuality => String::from_str(
                "image quality must be between 1 and 100",
            ),
            PlanError::InvalidVideoBitrate => String::from_str("invalid video bitrate"),
            PlanError::InvalidAudioBitrate => String::from_str("invalid audio bitrate"),
            PlanError::InvalidPreset => String::from_str(
                "preset must be one of: ultrafast, superfast, veryfast, faster, fast, medium, slow, slower, veryslow",
            ),
            PlanError::EmptyVideoCodec => String::from_str("video codec must be a non-empty string"),
            PlanError::EmptyAudioCodec => String::from_str("audio codec must be a non-empty string"),
        }
    }
}

/// Spec: the text `PlanError::message` returns.
pub open spec fn plan_error_message_spec(e: PlanError) -> Seq<char> {
    match e {
        PlanError::SourceEqualsDestination => "source and destination must differ"@,
        PlanError::InvalidImageQuality => "image quality must be between 1 and 100"@,
        PlanError::InvalidVideoBitrate => "invalid video bitrate"@,
        PlanError::InvalidAudioBitrate => "invalid audio bitrate"@,
        PlanError::InvalidPreset => "preset must be one of: ultrafast, superfast, veryfast, faster, fast, medium, slow, slower, veryslow"@,
        PlanError::EmptyVideoCodec => "video codec must be a non-empty string"@,
        PlanError::EmptyAudioCodec => "audio codec must be a non-empty string"@,
    }
}

/// Spec: the view of an optional string.
pub open spec fn os_view(o: Option<String>) -> Option<Seq<char>> {
    match o {
        Some(s) => Some(s@),
        None => None,
    }
}

// ---------------------------------------------------------------------------
// Extension normalization and classification
// ---------------------------------------------------------------------------

/// Spec: normalized extension of a path: lowercased, with the aliases
/// `jpeg` to `jpg` and `htm` to `html` applied.
pub open spec fn normalize_ext_spec(path: Seq<char>) -> Option<Seq<char>> {
    match ext_of_spec(path) {
        Some(e) => {
            let low = lower_spec(e);
            if low == "jpeg"@ {
                Some("jpg"@)
            } else if low == "htm"@ {
                Some("html"@)
            } else {
                Some(low)
            }
        },
        None => None,
    }
}

/// Normalized extension of a path.
pub fn normalize_ext(path: &str) -> (r: Option<String>)
    ensures
        os_view(r) == normalize_ext_spec(path@),
{
    match extension_of(path) {
        Some(e) => {
            let low = to_lower(e);
            if str_eq(low.as_str(), "jpeg") {
                Some(String::from_str("jpg"))
            } else if str_eq(low.as_str(), "htm") {
                Some(String::from_str("html"))
            } else {
                Some(low)
            }
        },
        None => None,
    }
}

/// Spec: extensions handled by the image tool.
pub open spec fn is_image_ext_spec(ext: Option<Seq<char>>) -> bool {
    match ext {
        Some(e) => e == "jpg"@ || e == "jpeg"@ || e == "png"@ || e == "gif"@ || e == "webp"@
            || e == "bmp"@ || e == "tiff"@ || e == "tif"@ || e == "heic"@ || e == "avif"@,
        None => false,
    }
}

/// True for extensions handled by the image tool.
pub fn is_image_ext(ext: Option<&str>) -> (r: bool)
    ensures
        match ext {
            Some(e) => r == is_image_ext_spec(Some(e@)),
            None => r == false,
        },
{
    match ext {
        Some(e) => str_eq(e, "jpg") || str_eq(e, "jpeg") || str_eq(e, "png") || str_eq(e, "gif")
            || str_eq(e, "webp") || str_eq(e, "bmp") || str_eq(e, "tiff") || str_eq(e, "tif")
            || str_eq(e, "heic") || str_eq(e, "avif"),
        None => false,
    }
}

/// Spec: audio extensions.
pub open spec fn is_audio_ext_spec(ext: Option<Seq<char>>) -> bool {
    match ext {
        Some(e) => e == "mp3"@ || e == "wav"@ || e == "flac"@ || e == "aac"@ || e == "ogg"@
            || e == "m4a"@ || e == "opus"@,
        None => false,
    }
}

/// True for audio extensions.
pub fn is_audio_ext(ext: Option<&str>) -> (r: bool)
    ensures
        match ext {
            Some(e) => r == is_audio_ext_spec(Some(e@)),
            None => r == false,
        },
{
    match ext {
        Some(e) => str_eq(e, "mp3") || str_eq(e, "wav") || str_eq(e, "flac") || str_eq(e, "aac")
            || str_eq(e, "ogg") || str_eq(e, "m4a") || str_eq(e, "opus"),
        None => false,
    }
}

/// Spec: video extensions.
pub open spec fn is_video_ext_spec(ext: Option<Seq<char>>) -> bool {
    match ext {
        Some(e) => e == "mp4"@ || e == "mov"@ || e == "mkv"@ || e == "webm"@ || e == "avi"@,
        None => false,
    }
}

/// True for video extensions.
pub fn is_video_ext(ext: Option<&str>) -> (r: bool)
    ensures
        match ext {
            Some(e) => r == is_video_ext_spec(Some(e@)),
            None => r == false,
        },
{
    match ext {
        Some(e) => str_eq(e, "mp4") || str_eq(e, "mov") || str_eq(e, "mkv") || str_eq(e, "webm")
            || str_eq(e, "avi"),
        None => false,
    }
}

/// Spec: media extensions, audio or video.
pub open spec fn is_media_ext_spec(ext: Option<Seq<char>>) -> bool {
    is_audio_ext_spec(ext) || is_video_ext_spec(ext)
}

/// True for media extensions, audio or video.
pub fn is_media_ext(ext: Option<&str>) -> (r: bool)
    ensures
        match ext {
            Some(e) => r == is_media_ext_spec(Some(e@)),
            None => r == false,
        },
{
    is_audio_ext(ext) || is_video_ext(ext)
}

/// Spec: extensions handled by the document tool.
pub open spec fn is_document_ext_spec(ext: Option<Seq<char>>) -> bool {
    match ext {
        Some(e) => e == "doc"@ || e == "docx"@ || e == "ppt"@ || e == "pptx"@ || e == "xls"@
            || e == "xlsx"@ || e == "odt"@ || e == "odp"@ || e == "ods"@ || e == "rtf"@
            || e == "txt"@,
        None => false,
    }
}

/// True for extensions handled by the document tool.
pub fn is_document_ext(ext: Option<&str>) -> (r: bool)
    ensures
        match ext {
            Some(e) => r == is_document_ext_spec(Some(e@)),
            None => r == false,
        },
{
    match ext {
        Some(e) => str_eq(e, "doc") || str_eq(e, "docx") || str_eq(e, "ppt") || str_eq(e, "pptx")
            || str_eq(e, "xls") || str_eq(e, "xlsx") || str_eq(e, "odt") || str_eq(e, "odp")
            || str_eq(e, "ods") || str_eq(e, "rtf") || str_eq(e, "txt"),
        None => false,
    }
}

/// Spec: one side is `pdf` while the other is an image extension.
pub open spec fn is_pdf_image_pair_spec(se: Option<Seq<char>>, de: Option<Seq<char>>) -> bool {
    (se == Some("pdf"@) && is_image_ext_spec(de)) || (de == Some("pdf"@) && is_image_ext_spec(se))
}

/// True when one side is `pdf` while the other is an image extension.
pub fn is_pdf_image_pair(source_ext: Option<&str>, dest_ext: Option<&str>) -> (r: bool)
    ensures
        r == is_pdf_image_pair_spec(opt_deref_view(source_ext), opt_deref_view(dest_ext)),
{
    let src_pdf = match source_ext {
        Some(e) => str_eq(e, "pdf"),
        None => false,
    };
    let dst_pdf = match dest_ext {
        Some(e) => str_eq(e, "pdf"),
        None => false,
    };
    (src_pdf && is_image_ext(dest_ext)) || (dst_pdf && is_image_ext(source_ext))
}

/// Spec: the view of an optional string slice.
pub open spec fn opt_deref_view(o: Option<&str>) -> Option<Seq<char>> {
    match o {
        Some(s) => Some(s@),
        None => None,
    }
}

/// Spec: classification of a destination extension.
pub open spec fn classify_dest_kind_spec(ext: Option<Seq<char>>) -> MediaKind {
    if is_image_ext_spec(ext) {
        MediaKind::Image
    } else if is_audio_ext_spec(ext) {
        MediaKind::Audio
    } else if is_video_ext_spec(ext) {
        MediaKind::Video
    } else if is_document_ext_spec(ext) || ext == Some("pdf"@) {
        MediaKind::Document
    } else {
        MediaKind::Other
    }
}

/// Classification of a destination extension.
pub fn classify_dest_kind(ext: Option<&str>) -> (r: MediaKind)
    ensures
        r == classify_dest_kind_spec(opt_deref_view(ext)),
{
    if is_image_ext(ext) {
        MediaKind::Image
    } else if is_audio_ext(ext) {
        MediaKind::Audio
    } else if is_video_ext(ext) {
        MediaKind::Video
    } else {
        let is_pdf = match ext {
            Some(e) => str_eq(e, "pdf"),
            None => false,
        };
        if is_document_ext(ext) || is_pdf {
            MediaKind::Document
        } else {
            MediaKind::Other
        }
    }
}

// ---------------------------------------------------------------------------
// Strategy and backend selection
// ---------------------------------------------------------------------------

/// Spec: the strategy chosen for a pair of normalized extensions. Equal
/// extensions rename (when the source moves) or copy; anything else converts.
pub open spec fn strategy_spec(
    se: Option<Seq<char>>,
    de: Option<Seq<char>>,
    move_source: bool,
) -> Strategy {
    if se is Some && de is Some && se->0 == de->0 {
        if move_source {
            Strategy::RenameOnly
        } else {
            Strategy::CopyOnly
        }
    } else {
        Strategy::Convert
    }
}

/// Spec: the backend for a conversion, first matching rule wins: image to
/// image and pdf/image pairs go to the image tool, media to media goes to
/// ffmpeg, document to pdf goes to the office tool, anything else has none.
pub open spec fn select_backend_spec(se: Option<Seq<char>>, de: Option<Seq<char>>) -> Option<
    Backend,
> {
    if is_image_ext_spec(se) && is_image_ext_spec(de) {
        Some(Backend::ImageMagick)
    } else if is_pdf_image_pair_spec(se, de) {
        Some(Backend::ImageMagick)
    } else if is_media_ext_spec(se) && is_media_ext_spec(de) {
        Some(Backend::Ffmpeg)
    } else if is_document_ext_spec(se) && de == Some("pdf"@) {
        Some(Backend::LibreOffice)
    } else {
        None
    }
}

/// The backend for a conversion between two normalized extensions.
pub fn select_backend(source_ext: Option<&str>, dest_ext: Option<&str>) -> (r: Option<Backend>)
    ensures
        r == select_backend_spec(opt_deref_view(source_ext), opt_deref_view(dest_ext)),
{
    if is_image_ext(source_ext) && is_image_ext(dest_ext) {
        return Some(Backend::ImageMagick);
    }
    if is_pdf_image_pair(source_ext, dest_ext) {
        return Some(Backend::ImageMagick);
    }
    if is_media_ext(source_ext) && is_media_ext(dest_ext) {
        return Some(Backend::Ffmpeg);
    }
    let dst_pdf = match dest_ext {
        Some(e) => str_eq(e, "pdf"),
        None => false,
    };
    if is_document_ext(source_ext) && dst_pdf {
        return Some(Backend::LibreOffice);
    }
    None
}

// ---------------------------------------------------------------------------
// Option validation
// ---------------------------------------------------------------------------

/// Spec: a bitrate is digits with an optional trailing `k`, `K`, `m` or `M`.
pub open spec fn bitrate_ok_spec(s: Seq<char>) -> bool {
    s.len() > 0 && (all_digits(s) || (s.len() >= 2 && all_digits(s.subrange(0, s.len() - 1)) && (
    s.last() == 'k' || s.last() == 'K' || s.last() == 'm' || s.last() == 'M')))
}

/// True when the bitrate is digits with an optional `k`/`m` suffix.
pub fn validate_bitrate(bitrate: &str) -> (r: bool)
    ensures
        r == bitrate_ok_spec(bitrate@),
{
    let n: usize = bitrate.unicode_len();
    if n == 0 {
        return false;
    }
    if digits_in_range(bitrate, 0, n) {
        return true;
    }
    if n < 2 {
        return false;
    }
    let last = bitrate.get_char(n - 1);
    let suffix_ok = last == 'k' || last == 'K' || last == 'm' || last == 'M';
    let digits_ok = digits_in_range(bitrate, 0, n - 1);
    proof {
        let head = bitrate@.subrange(0, n - 1);
        if digits_ok {
            assert forall|i: int| 0 <= i < head.len() implies is_digit(head[i]) by {
                assert(head[i] == bitrate@[i]);
            }
            assert(all_digits(head));
        } else {
            assert(exists|j: int| 0 <= j < n - 1 && !is_digit(bitrate@[j]));
            let k = choose|k: int| 0 <= k < n - 1 && !is_digit(bitrate@[k]);
            assert(head[k] == bitrate@[k]);
            assert(!all_digits(head));
        }
    }
    suffix_ok && digits_ok
}

/// Spec: the fixed nine-value encoder preset set, compared case-insensitively.
pub open spec fn preset_ok_spec(s: Seq<char>) -> bool {
    let low = lower_spec(s);
    low == "ultrafast"@ || low == "superfast"@ || low == "veryfast"@ || low == "faster"@ || low
        == "fast"@ || low == "medium"@ || low == "slow"@ || low == "slower"@ || low == "veryslow"@
}

/// True when the preset is one of the nine known values, ignoring case.
pub fn validate_preset(preset: &str) -> (r: bool)
    ensures
        r == preset_ok_spec(preset@),
{
    let low = to_lower(preset);
    let l = low.as_str();
    str_eq(l, "ultrafast") || str_eq(l, "superfast") || str_eq(l, "veryfast") || str_eq(
        l,
        "faster",
    ) || str_eq(l, "fast") || str_eq(l, "medium") || str_eq(l, "slow") || str_eq(l, "slower")
        || str_eq(l, "veryslow")
}

/// Spec: the first option violation, checked in a fixed order, or `Ok`.
pub open spec fn validate_options_spec(o: ConversionOptions) -> Result<(), PlanError> {
    if o.image_quality is Some && (o.image_quality->0 == 0 || o.image_quality->0 > 100) {
        Err(PlanError::InvalidImageQuality)
    } else if o.video_bitrate is Some && !bitrate_ok_spec(o.video_bitrate->0@) {
        Err(PlanError::InvalidVideoBitrate)
    } else if o.audio_bitrate is Some && !bitrate_ok_spec(o.audio_bitrate->0@) {
        Err(PlanError::InvalidAudioBitrate)
    } else if o.preset is Some && !preset_ok_spec(o.preset->0@) {
        Err(PlanError::InvalidPreset)
    } else if o.video_codec is Some && !has_visible(o.video_codec->0@) {
        Err(PlanError::EmptyVideoCodec)
    } else if o.audio_codec is Some && !has_visible(o.audio_codec->0@) {
        Err(PlanError::EmptyAudioCodec)
    } else {
        Ok(())
    }
}

/// Spec: every set option is acceptable: quality in 1..=100, bitrates
/// numeric with an optional suffix, a known preset, codecs non-blank.
pub open spec fn options_valid_spec(o: ConversionOptions) -> bool {
    &&& (o.image_quality is Some ==> 1 <= o.image_quality->0 <= 100)
    &&& (o.video_bitrate is Some ==> bitrate_ok_spec(o.video_bitrate->0@))
    &&& (o.audio_bitrate is Some ==> bitrate_ok_spec(o.audio_bitrate->0@))
    &&& (o.preset is Some ==> preset_ok_spec(o.preset->0@))
    &&& (o.video_codec is Some ==> has_visible(o.video_codec->0@))
    &&& (o.audio_codec is Some ==> has_visible(o.audio_codec->0@))
}

/// Checks every set option, reporting the first violation.
pub fn validate_options(options: &ConversionOptions) -> (r: Result<(), PlanError>)
    ensures
        r == validate_options_spec(*options),
        (r is Ok) == options_valid_spec(*options),
{
    if let Some(q) = options.image_quality {
        if q == 0 || q > 100 {
            return Err(PlanError::InvalidImageQuality);
        }
    }
    if let Some(b) = &options.video_bitrate {
        if !validate_bitrate(b.as_str()) {
            return Err(PlanError::InvalidVideoBitrate);
        }
    }
    if let Some(b) = &options.audio_bitrate {
        if !validate_bitrate(b.as_str()) {
            return Err(PlanError::InvalidAudioBitrate);
        }
    }
    if let Some(p) = &options.preset {
        if !validate_preset(p.as_str()) {
            return Err(PlanError::InvalidPreset);
        }
    }
    if let Some(c) = &options.video_codec {
        if !has_visible_char(c.as_str()) {
            return Err(PlanError::EmptyVideoCodec);
        }
    }
    if let Some(c) = &options.audio_codec {
        if !has_visible_char(c.as_str()) {
            return Err(PlanError::EmptyAudioCodec);
        }
    }
    Ok(())
}

// ---------------------------------------------------------------------------
// Advisory notes
// ---------------------------------------------------------------------------

/// Spec: a one-note segment when the condition holds, else nothing.
pub open spec fn note_if(cond: bool, text: Seq<char>) -> Seq<Seq<char>> {
    if cond {
        seq![text]
    } else {
        Seq::empty()
    }
}

/// Spec: at least one conversion option is set.
pub open spec fn any_option_set_spec(o: ConversionOptions) -> bool {
    o.image_quality is Some || o.video_bitrate is Some || o.audio_bitrate is Some || o.preset
        is Some || o.video_codec is Some || o.audio_codec is Some
}

/// Spec: the ordered advisory notes about options that will be ignored.
pub open spec fn option_warnings_spec(
    o: ConversionOptions,
    dest_kind: MediaKind,
    backend: Option<Backend>,
    se: Option<Seq<char>>,
    de: Option<Seq<char>>,
) -> Seq<Seq<char>> {
    note_if(
        dest_kind != MediaKind::Image && o.image_quality is Some,
        "image quality ignored for non-image output"@,
    ) + note_if(
        dest_kind == MediaKind::Document && !is_pdf_image_pair_spec(se, de) && any_option_set_spec(
            o,
        ),
        "media options ignored for document conversions"@,
    ) + note_if(
        dest_kind == MediaKind::Audio && o.video_bitrate is Some,
        "video bitrate ignored for audio-only output"@,
    ) + note_if(
        dest_kind == MediaKind::Audio && o.preset is Some,
        "preset ignored for audio-only output"@,
    ) + note_if(
        dest_kind == MediaKind::Image && o.video_bitrate is Some,
        "video bitrate ignored for image output"@,
    ) + note_if(
        dest_kind == MediaKind::Image && o.audio_bitrate is Some,
        "audio bitrate ignored for image output"@,
    ) + note_if(
        dest_kind == MediaKind::Image && o.video_codec is Some,
        "video codec ignored for image output"@,
    ) + note_if(
        dest_kind == MediaKind::Image && o.audio_codec is Some,
        "audio codec ignored for image output"@,
    ) + note_if(
        dest_kind == MediaKind::Audio && o.video_codec is Some,
        "video codec ignored for audio-only output"@,
    ) + note_if(
        backend != Some(Backend::Ffmpeg) && o.ffmpeg_preference != FfmpegPreference::Auto,
        "ffmpeg mode preference ignored for non-ffmpeg backend"@,
    ) + note_if(
        o.ffmpeg_preference == FfmpegPreference::StreamCopy && o.video_bitrate is Some,
        "video bitrate ignored when stream copy is forced"@,
    ) + note_if(
        o.ffmpeg_preference == FfmpegPreference::StreamCopy && o.audio_bitrate is Some,
        "audio bitrate ignored when stream copy is forced"@,
    ) + note_if(
        o.ffmpeg_preference == FfmpegPreference::StreamCopy && o.preset is Some,
        "preset ignored when stream copy is forced"@,
    ) + note_if(
        o.ffmpeg_preference == FfmpegPreference::StreamCopy && o.video_codec is Some,
        "video codec ignored when stream copy is forced"@,
    ) + note_if(
        o.ffmpeg_preference == FfmpegPreference::StreamCopy && o.audio_codec is Some,
        "audio codec ignored when stream copy is forced"@,
    )
}

/// Appends one note when the condition holds.
fn push_note(notes: &mut Vec<String>, cond: bool, text: &str)
    ensures
        seq_views(final(notes)@) == seq_views(old(notes)@) + note_if(cond, text@),
{
    if cond {
        let ghost before = notes@;
        let value = String::from_str(text);
        notes.push(value);
        proof {
            lemma_seq_views_push(before, value);
            assert(seq_views(before).push(text@) =~~= seq_views(before) + note_if(true, text@));
        }
    } else {
        proof {
            assert(seq_views(notes@) =~~= seq_views(notes@) + note_if(false, text@));
        }
    }
}

/// The ordered advisory notes about options the chosen conversion ignores.
pub fn option_warnings(
    options: &ConversionOptions,
    dest_kind: MediaKind,
    backend: Option<Backend>,
    source_ext: Option<&str>,
    dest_ext: Option<&str>,
) -> (r: Vec<String>)
    ensures
        seq_views(r@) == option_warnings_spec(
            *options,
            dest_kind,
            backend,
            opt_deref_view(source_ext),
            opt_deref_view(dest_ext),
        ),
{
    let ghost se = opt_deref_view(source_ext);
    let ghost de = opt_deref_view(dest_ext);
    let mut notes: Vec<String> = Vec::new();
    let not_image = !matches!(dest_kind, MediaKind::Image);
    let is_image = matches!(dest_kind, MediaKind::Image);
    let is_audio = matches!(dest_kind, MediaKind::Audio);
    let is_document = matches!(dest_kind, MediaKind::Document);
    let pdf_pair = is_pdf_image_pair(source_ext, dest_ext);
    let any_set = options.image_quality.is_some() || options.video_bitrate.is_some()
        || options.audio_bitrate.is_some() || options.preset.is_some()
        || options.video_codec.is_some() || options.audio_codec.is_some();
    let ffmpeg_backend = matches!(backend, Some(Backend::Ffmpeg));
    let pref_auto = matches!(options.ffmpeg_preference, FfmpegPreference::Auto);
    let pref_copy = matches!(options.ffmpeg_preference, FfmpegPreference::StreamCopy);
    push_note(
        &mut notes,
        not_image && options.image_quality.is_some(),
        "image quality ignored for non-image output",
    );
    push_note(
        &mut notes,
        is_document && !pdf_pair && any_set,
        "media options ignored for document conversions",
    );
    push_note(
        &mut notes,
        is_audio && options.video_bitrate.is_some(),
        "video bitrate ignored for audio-only output",
    );
    push_note(&mut notes, is_audio && options.preset.is_some(), "preset ignored for audio-only output");
    push_note(
        &mut notes,
        is_image && options.video_bitrate.is_some(),
        "video bitrate ignored for image output",
    );
    push_note(
        &mut notes,
        is_image && options.audio_bitrate.is_some(),
        "audio bitrate ignored for image output",
    );
    push_note(
        &mut notes,
        is_image && options.video_codec.is_some(),
        "video codec ignored for image output",
    );
    push_note(
        &mut notes,
        is_image && options.audio_codec.is_some(),
        "audio codec ignored for image output",
    );
    push_note(
        &mut notes,
        is_audio && options.video_codec.is_some(),
        "video codec ignored for audio-only output",
    );
    push_note(
        &mut notes,
        !ffmpeg_backend && !pref_auto,
        "ffmpeg mode preference ignored for non-ffmpeg backend",
    );
    push_note(
        &mut notes,
        pref_copy && options.video_bitrate.is_some(),
        "video bitrate ignored when stream copy is forced",
    );
    push_note(
        &mut notes,
        pref_copy && options.audio_bitrate.is_some(),
        "audio bitrate ignored when stream copy is forced",
    );
    push_note(&mut notes, pref_copy && options.preset.is_some(), "preset ignored when stream copy is forced");
    push_note(
        &mut notes,
        pref_copy && options.video_codec.is_some(),
        "video codec ignored when stream copy is forced",
    );
    push_note(
        &mut notes,
        pref_copy && options.audio_codec.is_some(),
        "audio codec ignored when stream copy is forced",
    );
    proof {
        assert(seq_views(notes@) =~~= option_warnings_spec(*options, dest_kind, backend, se, de));
    }
    notes
}

// ---------------------------------------------------------------------------
// Building a plan
// ---------------------------------------------------------------------------

/// Spec: the full ordered note list of a plan.
pub open spec fn plan_notes_spec(
    o: ConversionOptions,
    strategy: Strategy,
    backend: Option<Backend>,
    dest_kind: MediaKind,
    move_source: bool,
    se: Option<Seq<char>>,
    de: Option<Seq<char>>,
) -> Seq<Seq<char>> {
    note_if(
        strategy == Strategy::Convert && backend is None,
        "no supported backend found for this conversion"@,
    ) + note_if(
        strategy == Strategy::Convert && backend == Some(Backend::Ffmpeg),
        "ffprobe may be used at runtime to choose stream copy vs transcode"@,
    ) + note_if(
        strategy == Strategy::Convert && is_pdf_image_pair_spec(se, de) && se == Some("pdf"@),
        "PDF to image converts the first page only"@,
    ) + note_if(!move_source, "source will be kept"@) + option_warnings_spec(
        o,
        dest_kind,
        backend,
        se,
        de,
    )
}

/// Turns a borrowed optional string into an optional slice.
fn opt_deref(o: &Option<String>) -> (r: Option<&str>)
    ensures
        opt_deref_view(r) == os_view(*o),
{
    match o {
        Some(s) => Some(s.as_str()),
        None => None,
    }
}

/// Builds the immutable plan for one source/destination pair: rejects a
/// destination equal to the source and invalid options, chooses the strategy
/// from the normalized extensions, selects the backend for conversions, and
/// collects the ordered advisory notes.
pub fn build_plan(
    source: &str,
    destination: &str,
    move_source: bool,
    backup: bool,
    options: ConversionOptions,
    detected: DetectedType,
) -> (r: Result<Plan, PlanError>)
    ensures
        ({
            let se = normalize_ext_spec(source@);
            let de = normalize_ext_spec(destination@);
            match r {
                Ok(p) => {
                    &&& source@ != destination@
                    &&& options_valid_spec(options)
                    &&& p.source@ == source@
                    &&& p.destination@ == destination@
                    &&& p.detected == detected
                    &&& p.strategy == strategy_spec(se, de, move_source)
                    &&& p.backend == (if p.strategy == Strategy::Convert {
                        select_backend_spec(se, de)
                    } else {
                        None::<Backend>
                    })
                    &&& os_view(p.dest_ext) == de
                    &&& p.dest_kind == classify_dest_kind_spec(de)
                    &&& seq_views(p.notes@) == plan_notes_spec(
                        options,
                        p.strategy,
                        p.backend,
                        p.dest_kind,
                        move_source,
                        se,
                        de,
                    )
                    &&& p.move_source == move_source
                    &&& p.backup == backup
                    &&& p.options == options
                },
                Err(e) => {
                    &&& (source@ == destination@ ==> e == PlanError::SourceEqualsDestination)
                    &&& (source@ != destination@ ==> validate_options_spec(options) == Err::<
                        (),
                        PlanError,
                    >(e))
                },
            }
        }),
        (r is Err) == (source@ == destination@ || !options_valid_spec(options)),
{
    if str_eq(source, destination) {
        return Err(PlanError::SourceEqualsDestination);
    }
    let source_ext = normalize_ext(source);
    let dest_ext = normalize_ext(destination);
    let dest_kind = classify_dest_kind(opt_deref(&dest_ext));
    if let Err(e) = validate_options(&options) {
        return Err(e);
    }
    let equal_exts = match (&source_ext, &dest_ext) {
        (Some(s), Some(d)) => str_eq(s.as_str(), d.as_str()),
        _ => false,
    };
    let strategy = if equal_exts {
        if move_source {
            Strategy::RenameOnly
        } else {
            Strategy::CopyOnly
        }
    } else {
        Strategy::Convert
    };
    let backend = if matches!(strategy, Strategy::Convert) {
        select_backend(opt_deref(&source_ext), opt_deref(&dest_ext))
    } else {
        None
    };
    let mut notes: Vec<String> = Vec::new();
    let is_convert = matches!(strategy, Strategy::Convert);
    push_note(
        &mut notes,
        is_convert && backend.is_none(),
        "no supported backend found for this conversion",
    );
    push_note(
        &mut notes,
        is_convert && matches!(backend, Some(Backend::Ffmpeg)),
        "ffprobe may be used at runtime to choose stream copy vs transcode",
    );
    let pdf_pair = is_pdf_image_pair(opt_deref(&source_ext), opt_deref(&dest_ext));
    let src_is_pdf = match &source_ext {
        Some(e) => str_eq(e.as_str(), "pdf"),
        None => false,
    };
    push_note(
        &mut notes,
        is_convert && pdf_pair && src_is_pdf,
        "PDF to image converts the first page only",
    );
    push_note(&mut notes, !move_source, "source will be kept");
    let mut warnings = option_warnings(
        &options,
        dest_kind,
        backend,
        opt_deref(&source_ext),
        opt_deref(&dest_ext),
    );
    let ghost notes_before = notes@;
    let ghost warnings_view = warnings@;
    notes.append(&mut warnings);
    proof {
        crate::strings::lemma_seq_views_add(notes_before, warnings_view);
        assert(seq_views(notes@) =~~= plan_notes_spec(
            options,
            strategy,
            backend,
            dest_kind,
            move_source,
            normalize_ext_spec(source@),
            normalize_ext_spec(destination@),
        ));
    }
    Ok(
        Plan {
            source: String::from_str(source),
            destination: String::from_str(destination),
            detected,
            strategy,
            backend,
            notes,
            move_source,
            backup,
            options,
            dest_ext,
            dest_kind,
        },
    )
}

// ---------------------------------------------------------------------------
// Laws
// ---------------------------------------------------------------------------

/// Law: for every pair whose normalized extensions are equal, the strategy
/// is a rename exactly when the source moves and a copy otherwise, and the
/// conversion rules never run — together with the planner's contract this
/// means such a plan carries no backend.
pub proof fn lemma_equal_extensions_strategy(
    se: Option<Seq<char>>,
    de: Option<Seq<char>>,
    move_source: bool,
)
    requires
        se is Some,
        de is Some,
        se->0 == de->0,
    ensures
        move_source ==> strategy_spec(se, de, move_source) == Strategy::RenameOnly,
        !move_source ==> strategy_spec(se, de, move_source) == Strategy::CopyOnly,
        strategy_spec(se, de, move_source) != Strategy::Convert,
{
}

/// Law: for every pair whose normalized extensions differ — or where either
/// side has none — the strategy is a conversion, and the backend is the
/// value of the selection rules on the two extensions alone. The planner's
/// contract feeds those rules nothing but the normalized extensions, so the
/// backend never depends on the file's bytes or on what detection sniffed.
pub proof fn lemma_differing_extensions_convert(
    se: Option<Seq<char>>,
    de: Option<Seq<char>>,
    move_source: bool,
)
    requires
        !(se is Some && de is Some && se->0 == de->0),
    ensures
        strategy_spec(se, de, move_source) == Strategy::Convert,
{
}

/// Law: the backend choice is a pure function of the normalized extension
/// pair: two pairs of paths that normalize alike select the same backend,
/// whatever else differs about the files.
pub proof fn lemma_backend_pure(
    src1: Seq<char>,
    dst1: Seq<char>,
    src2: Seq<char>,
    dst2: Seq<char>,
)
    requires
        normalize_ext_spec(src1) == normalize_ext_spec(src2),
        normalize_ext_spec(dst1) == normalize_ext_spec(dst2),
    ensures
        select_backend_spec(normalize_ext_spec(src1), normalize_ext_spec(dst1))
            == select_backend_spec(normalize_ext_spec(src2), normalize_ext_spec(dst2)),
{
}

} // verus!
