//! Construction of the argument lists handed to the external tools, and the
//! human-readable command preview. The preview and the executor consume the
//! same argument builders, so the two can never drift apart.

use vstd::prelude::*;
use crate::numbers::dec_str;
use crate::numbers::u64_to_string;
use crate::pathing::ext_of_spec;
use crate::pathing::extension_of;
use crate::plan::Backend;
use crate::plan::ConversionOptions;
use crate::plan::FfmpegMode;
use crate::plan::FfmpegPreference;
use crate::plan::MediaKind;
use crate::plan::Plan;
use crate::plan::opt_deref_view;
use crate::plan::os_view;
use crate::strings::join_sep;
use crate::strings::join_strings;
use crate::strings::lemma_seq_views_push;
use crate::strings::seq_views;
use crate::strings::str_eq;

verus! {

/// Spec: the default video encoder for a destination extension.
pub open spec fn default_video_codec_spec(de: Option<Seq<char>>) -> Option<Seq<char>> {
    if de == Some("mp4"@) || de == Some("mov"@) || de == Some("mkv"@) || de == Some("avi"@) {
        Some("libx264"@)
    } else if de == Some("webm"@) {
        Some("libvpx-vp9"@)
    } else {
        None
    }
}

/// The default video encoder for a destination extension.
pub fn default_video_codec(dest_ext: Option<&str>) -> (r: Option<&'static str>)
    ensures
        opt_deref_view(r) == default_video_codec_spec(opt_deref_view(dest_ext)),
{
    match dest_ext {
        Some(e) => {
            if str_eq(e, "mp4") || str_eq(e, "mov") || str_eq(e, "mkv") || str_eq(e, "avi") {
                Some("libx264")
            } else if str_eq(e, "webm") {
                Some("libvpx-vp9")
            } else {
                None
            }
        },
        None => None,
    }
}

/// Spec: the default audio encoder for a destination extension; audio-only
/// destinations map their container, video destinations get a companion.
pub open spec fn default_audio_codec_spec(de: Option<Seq<char>>, kind: MediaKind) -> Option<
    Seq<char>,
> {
    if kind == MediaKind::Audio {
        if de == Some("mp3"@) {
            Some("libmp3lame"@)
        } else if de == Some("flac"@) {
            Some("flac"@)
        } else if de == Some("wav"@) {
            Some("pcm_s16le"@)
        } else if de == Some("opus"@) {
            Some("libopus"@)
        } else if de == Some("ogg"@) {
            Some("libvorbis"@)
        } else if de == Some("m4a"@) || de == Some("aac"@) {
            Some("aac"@)
        } else {
            None
        }
    } else if de == Some("mp4"@) || de == Some("mov"@) || de == Some("mkv"@) || de == Some(
        "avi"@,
    ) {
        Some("aac"@)
    } else if de == Some("webm"@) {
        Some("libopus"@)
    } else {
        None
    }
}

/// The default audio encoder for a destination extension.
pub fn default_audio_codec(dest_ext: Option<&str>, dest_kind: MediaKind) -> (r: Option<
    &'static str,
>)
    ensures
        opt_deref_view(r) == default_audio_codec_spec(opt_deref_view(dest_ext), dest_kind),
{
    if matches!(dest_kind, MediaKind::Audio) {
        return match dest_ext {
            Some(e) => {
                if str_eq(e, "mp3") {
                    Some("libmp3lame")
                } else if str_eq(e, "flac") {
                    Some("flac")
                } else if str_eq(e, "wav") {
                    Some("pcm_s16le")
                } else if str_eq(e, "opus") {
                    Some("libopus")
                } else if str_eq(e, "ogg") {
                    Some("libvorbis")
                } else if str_eq(e, "m4a") || str_eq(e, "aac") {
                    Some("aac")
                } else {
                    None
                }
            },
            None => None,
        };
    }
    match dest_ext {
        Some(e) => {
            if str_eq(e, "mp4") || str_eq(e, "mov") || str_eq(e, "mkv") || str_eq(e, "avi") {
                Some("aac")
            } else if str_eq(e, "webm") {
                Some("libopus")
            } else {
                None
            }
        },
        None => None,
    }
}

/// Spec: a flag/value pair when the value is present, else nothing.
pub open spec fn pair_if(flag: Seq<char>, value: Option<Seq<char>>) -> Seq<Seq<char>> {
    match value {
        Some(v) => seq![flag, v],
        None => Seq::empty(),
    }
}

/// Appends a flag/value pair when the value is present.
fn push_pair(args: &mut Vec<String>, flag: &str, value: Option<&str>)
    ensures
        seq_views(final(args)@) == seq_views(old(args)@) + pair_if(flag@, opt_deref_view(value)),
{
    match value {
        Some(v) => {
            let ghost before = args@;
            let f = String::from_str(flag);
            args.push(f);
            proof {
                lemma_seq_views_push(before, f);
            }
            let ghost mid = args@;
            let s = String::from_str(v);
            args.push(s);
            proof {
                lemma_seq_views_push(mid, s);
                assert(seq_views(args@) =~~= seq_views(before) + pair_if(
                    flag@,
                    opt_deref_view(value),
                ));
            }
        },
        None => {
            proof {
                assert(seq_views(args@) =~~= seq_views(args@) + pair_if(
                    flag@,
                    opt_deref_view(value),
                ));
            }
        },
    }
}

/// Spec: the video encoder a transcode uses: the explicit option, else the
/// destination default.
pub open spec fn video_codec_choice(o: ConversionOptions, de: Option<Seq<char>>) -> Option<
    Seq<char>,
> {
    if o.video_codec is Some {
        Some(o.video_codec->0@)
    } else {
        default_video_codec_spec(de)
    }
}

/// Spec: the audio encoder a transcode uses: the explicit option, else the
/// destination default.
pub open spec fn audio_codec_choice(
    o: ConversionOptions,
    de: Option<Seq<char>>,
    kind: MediaKind,
) -> Option<Seq<char>> {
    if o.audio_codec is Some {
        Some(o.audio_codec->0@)
    } else {
        default_audio_codec_spec(de, kind)
    }
}

/// Spec: the encoder flags of a transcoding ffmpeg invocation.
pub open spec fn ffmpeg_transcode_args_spec(
    o: ConversionOptions,
    kind: MediaKind,
    de: Option<Seq<char>>,
) -> Seq<Seq<char>> {
    if kind == MediaKind::Video {
        pair_if("-c:v"@, video_codec_choice(o, de)) + pair_if("-b:v"@, os_view(o.video_bitrate))
            + pair_if("-preset"@, os_view(o.preset)) + pair_if(
            "-c:a"@,
            audio_codec_choice(o, de, kind),
        ) + pair_if("-b:a"@, os_view(o.audio_bitrate))
    } else if kind == MediaKind::Audio {
        pair_if("-c:a"@, audio_codec_choice(o, de, kind)) + pair_if(
            "-b:a"@,
            os_view(o.audio_bitrate),
        )
    } else {
        Seq::empty()
    }
}

/// Turns a borrowed optional string into an optional slice.
fn as_deref(o: &Option<String>) -> (r: Option<&str>)
    ensures
        opt_deref_view(r) == os_view(*o),
{
    match o {
        Some(s) => Some(s.as_str()),
        None => None,
    }
}

/// The encoder flags of a transcoding ffmpeg invocation: codec, bitrate and
/// preset options with destination-specific defaults for the codecs.
pub fn ffmpeg_transcode_args(
    options: &ConversionOptions,
    dest_kind: MediaKind,
    dest_ext: Option<&str>,
) -> (r: Vec<String>)
    ensures
        seq_views(r@) == ffmpeg_transcode_args_spec(*options, dest_kind, opt_deref_view(dest_ext)),
{
    let ghost de = opt_deref_view(dest_ext);
    let mut args: Vec<String> = Vec::new();
    if matches!(dest_kind, MediaKind::Video) {
        let video_codec = match as_deref(&options.video_codec) {
            Some(c) => Some(c),
            None => default_video_codec(dest_ext),
        };
        push_pair(&mut args, "-c:v", video_codec);
        push_pair(&mut args, "-b:v", as_deref(&options.video_bitrate));
        push_pair(&mut args, "-preset", as_deref(&options.preset));
        let audio_codec = match as_deref(&options.audio_codec) {
            Some(c) => Some(c),
            None => default_audio_codec(dest_ext, dest_kind),
        };
        push_pair(&mut args, "-c:a", audio_codec);
        push_pair(&mut args, "-b:a", as_deref(&options.audio_bitrate));
        proof {
            assert(seq_views(args@) =~~= ffmpeg_transcode_args_spec(*options, dest_kind, de));
        }
    } else if matches!(dest_kind, MediaKind::Audio) {
        let audio_codec = match as_deref(&options.audio_codec) {
            Some(c) => Some(c),
            None => default_audio_codec(dest_ext, dest_kind),
        };
        push_pair(&mut args, "-c:a", audio_codec);
        push_pair(&mut args, "-b:a", as_deref(&options.audio_bitrate));
        proof {
            assert(seq_views(args@) =~~= ffmpeg_transcode_args_spec(*options, dest_kind, de));
        }
    } else {
        proof {
            assert(seq_views(args@) =~~= ffmpeg_transcode_args_spec(*options, dest_kind, de));
        }
    }
    args
}

/// Spec: the argument list of an image-tool invocation: the source (with a
/// first-page selector when converting out of pdf), an optional quality
/// flag, then the destination.
pub open spec fn imagemagick_args_spec(
    source: Seq<char>,
    dest: Seq<char>,
    o: ConversionOptions,
) -> Seq<Seq<char>> {
    let src_arg = if ext_of_spec(source) == Some("pdf"@) && ext_of_spec(dest) is Some && ext_of_spec(
        dest,
    ) != Some("pdf"@) {
        source + "[0]"@
    } else {
        source
    };
    seq![src_arg] + pair_if_quality(o.image_quality) + seq![dest]
}

/// Spec: the quality flag pair when an image quality is set.
pub open spec fn pair_if_quality(q: Option<u8>) -> Seq<Seq<char>> {
    match q {
        Some(v) => seq!["-quality"@, dec_str(v as nat)],
        None => Seq::empty(),
    }
}

/// The argument list of an image-tool invocation.
pub fn imagemagick_args(source: &str, dest: &str, options: &ConversionOptions) -> (r: Vec<String>)
    ensures
        seq_views(r@) == imagemagick_args_spec(source@, dest@, *options),
{
    let mut args: Vec<String> = Vec::new();
    let src_is_pdf = match extension_of(source) {
        Some(e) => str_eq(e, "pdf"),
        None => false,
    };
    let dest_not_pdf = match extension_of(dest) {
        Some(e) => !str_eq(e, "pdf"),
        None => false,
    };
    let src_arg = if src_is_pdf && dest_not_pdf {
        String::from_str(source).concat("[0]")
    } else {
        String::from_str(source)
    };
    let ghost s0 = args@;
    args.push(src_arg);
    proof {
        lemma_seq_views_push(s0, src_arg);
    }
    match options.image_quality {
        Some(q) => {
            let ghost s1 = args@;
            let flag = String::from_str("-quality");
            args.push(flag);
            proof {
                lemma_seq_views_push(s1, flag);
            }
            let ghost s2 = args@;
            let value = u64_to_string(q as u64);
            args.push(value);
            proof {
                lemma_seq_views_push(s2, value);
            }
        },
        None => {},
    }
    let ghost s3 = args@;
    let d = String::from_str(dest);
    args.push(d);
    proof {
        lemma_seq_views_push(s3, d);
        assert(seq_views(args@) =~~= imagemagick_args_spec(source@, dest@, *options));
    }
    args
}

/// Spec: the argument list the legacy image-tool binary gets: the plain
/// source, an optional quality flag, then the destination. The legacy
/// invocation takes no first-page selector.
pub open spec fn imagemagick_basic_args_spec(
    source: Seq<char>,
    dest: Seq<char>,
    o: ConversionOptions,
) -> Seq<Seq<char>> {
    seq![source] + pair_if_quality(o.image_quality) + seq![dest]
}

/// The argument list the legacy image-tool binary gets.
pub fn imagemagick_basic_args(source: &str, dest: &str, options: &ConversionOptions) -> (r: Vec<
    String,
>)
    ensures
        seq_views(r@) == imagemagick_basic_args_spec(source@, dest@, *options),
{
    let mut args: Vec<String> = Vec::new();
    push_lit(&mut args, source);
    match options.image_quality {
        Some(q) => {
            push_lit(&mut args, "-quality");
            let value = u64_to_string(q as u64);
            let ghost s2 = args@;
            args.push(value);
            proof {
                lemma_seq_views_push(s2, value);
            }
        },
        None => {},
    }
    push_lit(&mut args, dest);
    proof {
        assert(seq_views(args@) =~~= imagemagick_basic_args_spec(source@, dest@, *options));
    }
    args
}

/// Spec: the full argument list of an ffmpeg invocation: quiet boilerplate,
/// the input, either a stream-copy flag or the transcode flags, then
/// machine-readable progress and the output.
pub open spec fn ffmpeg_args_spec(
    source: Seq<char>,
    dest: Seq<char>,
    o: ConversionOptions,
    kind: MediaKind,
    de: Option<Seq<char>>,
    mode: FfmpegMode,
) -> Seq<Seq<char>> {
    seq![
        "-nostdin"@,
        "-y"@,
        "-hide_banner"@,
        "-nostats"@,
        "-loglevel"@,
        "error"@,
        "-i"@,
        source,
    ] + (if mode == FfmpegMode::StreamCopy {
        seq!["-c"@, "copy"@]
    } else {
        ffmpeg_transcode_args_spec(o, kind, de)
    }) + seq!["-progress"@, "pipe:1"@, dest]
}

/// The full argument list of an ffmpeg invocation.
pub fn ffmpeg_args(
    source: &str,
    dest: &str,
    options: &ConversionOptions,
    dest_kind: MediaKind,
    dest_ext: Option<&str>,
    mode: FfmpegMode,
) -> (r: Vec<String>)
    ensures
        seq_views(r@) == ffmpeg_args_spec(
            source@,
            dest@,
            *options,
            dest_kind,
            opt_deref_view(dest_ext),
            mode,
        ),
{
    let mut args: Vec<String> = Vec::new();
    push_lit(&mut args, "-nostdin");
    push_lit(&mut args, "-y");
    push_lit(&mut args, "-hide_banner");
    push_lit(&mut args, "-nostats");
    push_lit(&mut args, "-loglevel");
    push_lit(&mut args, "error");
    push_lit(&mut args, "-i");
    push_lit(&mut args, source);
    if matches!(mode, FfmpegMode::StreamCopy) {
        push_lit(&mut args, "-c");
        push_lit(&mut args, "copy");
    } else {
        let mut extra = ffmpeg_transcode_args(options, dest_kind, dest_ext);
        let ghost left = args@;
        let ghost right = extra@;
        args.append(&mut extra);
        proof {
            crate::strings::lemma_seq_views_add(left, right);
        }
    }
    push_lit(&mut args, "-progress");
    push_lit(&mut args, "pipe:1");
    push_lit(&mut args, dest);
    proof {
        assert(seq_views(args@) =~~= ffmpeg_args_spec(
            source@,
            dest@,
            *options,
            dest_kind,
            opt_deref_view(dest_ext),
            mode,
        ));
    }
    args
}

/// Appends one literal argument.
fn push_lit(args: &mut Vec<String>, text: &str)
    ensures
        seq_views(final(args)@) == seq_views(old(args)@).push(text@),
{
    let ghost before = args@;
    let s = String::from_str(text);
    args.push(s);
    proof {
        lemma_seq_views_push(before, s);
    }
}

/// Spec: the argument list of an office-tool invocation writing a pdf into
/// the given output directory.
pub open spec fn libreoffice_args_spec(source: Seq<char>, out_dir: Seq<char>) -> Seq<Seq<char>> {
    seq!["--headless"@, "--convert-to"@, "pdf"@, "--outdir"@, out_dir, source]
}

/// The argument list of an office-tool invocation.
pub fn libreoffice_args(source: &str, out_dir: &str) -> (r: Vec<String>)
    ensures
        seq_views(r@) == libreoffice_args_spec(source@, out_dir@),
{
    let mut args: Vec<String> = Vec::new();
    push_lit(&mut args, "--headless");
    push_lit(&mut args, "--convert-to");
    push_lit(&mut args, "pdf");
    push_lit(&mut args, "--outdir");
    push_lit(&mut args, out_dir);
    push_lit(&mut args, source);
    proof {
        assert(seq_views(args@) =~~= libreoffice_args_spec(source@, out_dir@));
    }
    args
}

/// Spec: the preview of an ffmpeg invocation in the given mode.
pub open spec fn ffmpeg_preview_spec(p: Plan, mode: FfmpegMode) -> Seq<char> {
    join_sep(
        seq!["ffmpeg -i "@ + p.source@] + (if mode == FfmpegMode::StreamCopy {
            seq!["-c copy"@]
        } else {
            ffmpeg_transcode_args_spec(p.options, p.dest_kind, os_view(p.dest_ext))
        }) + seq![p.destination@],
        " "@,
    )
}

/// Spec: the command preview of a plan, when it has a backend.
pub open spec fn command_preview_spec(p: Plan) -> Option<Seq<char>> {
    match p.backend {
        None => None,
        Some(Backend::ImageMagick) => Some(
            "magick "@ + join_sep(
                imagemagick_args_spec(p.source@, p.destination@, p.options),
                " "@,
            ),
        ),
        Some(Backend::Ffmpeg) => match p.options.ffmpeg_preference {
            FfmpegPreference::StreamCopy => Some(ffmpeg_preview_spec(p, FfmpegMode::StreamCopy)),
            FfmpegPreference::Transcode => Some(ffmpeg_preview_spec(p, FfmpegMode::Transcode)),
            FfmpegPreference::Auto => Some(
                ffmpeg_preview_spec(p, FfmpegMode::StreamCopy) + " (if compatible), else "@
                    + ffmpeg_preview_spec(p, FfmpegMode::Transcode),
            ),
        },
        Some(Backend::LibreOffice) => Some(
            "soffice --headless --convert-to pdf --outdir <temp> "@ + p.source@,
        ),
    }
}

/// One ffmpeg preview line in the given mode.
fn ffmpeg_preview(plan: &Plan, mode: FfmpegMode) -> (r: String)
    ensures
        r@ == ffmpeg_preview_spec(*plan, mode),
{
    let mut parts: Vec<String> = Vec::new();
    let head = String::from_str("ffmpeg -i ").concat(plan.source.as_str());
    let ghost s0 = parts@;
    parts.push(head);
    proof {
        lemma_seq_views_push(s0, head);
    }
    if matches!(mode, FfmpegMode::StreamCopy) {
        push_lit(&mut parts, "-c copy");
    } else {
        let mut extra = ffmpeg_transcode_args(
            &plan.options,
            plan.dest_kind,
            as_deref(&plan.dest_ext),
        );
        let ghost left = parts@;
        let ghost right = extra@;
        parts.append(&mut extra);
        proof {
            crate::strings::lemma_seq_views_add(left, right);
        }
    }
    push_lit(&mut parts, plan.destination.as_str());
    proof {
        assert(seq_views(parts@) =~~= seq!["ffmpeg -i "@ + plan.source@] + (
        if mode == FfmpegMode::StreamCopy {
            seq!["-c copy"@]
        } else {
            ffmpeg_transcode_args_spec(plan.options, plan.dest_kind, os_view(plan.dest_ext))
        }) + seq![plan.destination@]);
    }
    join_strings(&parts, " ")
}

/// The command preview of a plan: the invocation the executor will make,
/// derived from the same argument builders the executor uses. With an
/// automatic ffmpeg preference both candidate invocations are shown.
pub fn command_preview(plan: &Plan) -> (r: Option<String>)
    ensures
        os_view(r) == command_preview_spec(*plan),
{
    match plan.backend {
        None => None,
        Some(Backend::ImageMagick) => {
            let args = imagemagick_args(plan.source.as_str(), plan.destination.as_str(), &plan.options);
            let joined = join_strings(&args, " ");
            Some(String::from_str("magick ").concat(joined.as_str()))
        },
        Some(Backend::Ffmpeg) => {
            match plan.options.ffmpeg_preference {
                FfmpegPreference::StreamCopy => Some(ffmpeg_preview(plan, FfmpegMode::StreamCopy)),
                FfmpegPreference::Transcode => Some(ffmpeg_preview(plan, FfmpegMode::Transcode)),
                FfmpegPreference::Auto => {
                    let copy = ffmpeg_preview(plan, FfmpegMode::StreamCopy);
                    let transcode = ffmpeg_preview(plan, FfmpegMode::Transcode);
                    Some(copy.concat(" (if compatible), else ").concat(transcode.as_str()))
                },
            }
        },
        Some(Backend::LibreOffice) => Some(
            String::from_str("soffice --headless --convert-to pdf --outdir <temp> ").concat(
                plan.source.as_str(),
            ),
        ),
    }
}

} // verus!
