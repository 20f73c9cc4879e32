//! The human-readable multi-line plan report.

use vstd::prelude::*;
use crate::command::command_preview;
use crate::command::command_preview_spec;
use crate::numbers::dec_str;
use crate::numbers::u64_to_string;
use crate::plan::Backend;
use crate::plan::FfmpegPreference;
use crate::plan::MediaKind;
use crate::plan::Plan;
use crate::plan::Strategy;
use crate::plan::os_view;
use crate::strings::join_sep;
use crate::strings::join_strings;
use crate::strings::lemma_seq_views_push;
use crate::strings::seq_views;

verus! {

/// Spec: the report word for a strategy.
pub open spec fn strategy_name_spec(s: Strategy) -> Seq<char> {
    match s {
        Strategy::RenameOnly => "rename"@,
        Strategy::CopyOnly => "copy"@,
        Strategy::Convert => "convert"@,
    }
}

/// The report word for a strategy.
pub fn strategy_name(s: Strategy) -> (r: &'static str)
    ensures
        r@ == strategy_name_spec(s),
{
    match s {
        Strategy::RenameOnly => "rename",
        Strategy::CopyOnly => "copy",
        Strategy::Convert => "convert",
    }
}

/// Spec: the report word for a backend.
pub open spec fn backend_name_spec(b: Backend) -> Seq<char> {
    match b {
        Backend::ImageMagick => "imagemagick"@,
        Backend::Ffmpeg => "ffmpeg"@,
        Backend::LibreOffice => "libreoffice"@,
    }
}

/// The report word for a backend.
pub fn backend_name(b: Backend) -> (r: &'static str)
    ensures
        r@ == backend_name_spec(b),
{
    match b {
        Backend::ImageMagick => "imagemagick",
        Backend::Ffmpeg => "ffmpeg",
        Backend::LibreOffice => "libreoffice",
    }
}

/// Spec: the report word for a destination kind.
pub open spec fn kind_name_spec(k: MediaKind) -> Seq<char> {
    match k {
        MediaKind::Image => "image"@,
        MediaKind::Audio => "audio"@,
        MediaKind::Video => "video"@,
        MediaKind::Document => "document"@,
        MediaKind::Other => "other"@,
    }
}

/// The report word for a destination kind.
pub fn kind_name(k: MediaKind) -> (r: &'static str)
    ensures
        r@ == kind_name_spec(k),
{
    match k {
        MediaKind::Image => "image",
        MediaKind::Audio => "audio",
        MediaKind::Video => "video",
        MediaKind::Document => "document",
        MediaKind::Other => "other",
    }
}

/// Spec: the report word for an ffmpeg preference.
pub open spec fn preference_name_spec(p: FfmpegPreference) -> Seq<char> {
    match p {
        FfmpegPreference::Auto => "auto"@,
        FfmpegPreference::StreamCopy => "stream-copy"@,
        FfmpegPreference::Transcode => "transcode"@,
    }
}

/// The report word for an ffmpeg preference.
pub fn preference_name(p: FfmpegPreference) -> (r: &'static str)
    ensures
        r@ == preference_name_spec(p),
{
    match p {
        FfmpegPreference::Auto => "auto",
        FfmpegPreference::StreamCopy => "stream-copy",
        FfmpegPreference::Transcode => "transcode",
    }
}

/// Spec: `yes` or `no`.
pub open spec fn yes_no_spec(b: bool) -> Seq<char> {
    if b {
        "yes"@
    } else {
        "no"@
    }
}

/// Spec: an optional labelled line.
pub open spec fn line_if(cond: bool, line: Seq<char>) -> Seq<Seq<char>> {
    if cond {
        seq![line]
    } else {
        Seq::empty()
    }
}

/// Spec: every item prefixed with the same label.
pub open spec fn prefix_all(prefix: Seq<char>, items: Seq<Seq<char>>) -> Seq<Seq<char>> {
    Seq::new(items.len(), |i: int| prefix + items[i])
}

/// Spec: the leading report lines, from the source up to the destination
/// classification.
pub open spec fn header_lines_spec(p: Plan) -> Seq<Seq<char>> {
    seq!["Source: "@ + p.source@] + seq!["Destination: "@ + p.destination@] + seq![
        "Detected: "@ + (match os_view(p.detected.mime) {
            Some(m) => m,
            None => "unknown"@,
        }),
    ] + (match os_view(p.detected.ext_hint) {
        Some(e) => seq!["Detected extension: "@ + e],
        None => Seq::empty(),
    }) + seq!["Strategy: "@ + strategy_name_spec(p.strategy)] + (match os_view(p.dest_ext) {
        Some(e) => seq!["Destination extension: "@ + e],
        None => Seq::empty(),
    }) + (match p.backend {
        Some(b) => seq!["Backend: "@ + backend_name_spec(b)],
        None => Seq::empty(),
    }) + seq!["Destination kind: "@ + kind_name_spec(p.dest_kind)]
}

/// Spec: one line for every option that is set.
pub open spec fn option_lines_spec(p: Plan) -> Seq<Seq<char>> {
    (match p.options.image_quality {
        Some(q) => seq!["Image quality: "@ + dec_str(q as nat)],
        None => Seq::empty(),
    }) + (match os_view(p.options.video_bitrate) {
        Some(b) => seq!["Video bitrate: "@ + b],
        None => Seq::empty(),
    }) + (match os_view(p.options.audio_bitrate) {
        Some(b) => seq!["Audio bitrate: "@ + b],
        None => Seq::empty(),
    }) + (match os_view(p.options.preset) {
        Some(b) => seq!["Preset: "@ + b],
        None => Seq::empty(),
    }) + (match os_view(p.options.video_codec) {
        Some(b) => seq!["Video codec: "@ + b],
        None => Seq::empty(),
    }) + (match os_view(p.options.audio_codec) {
        Some(b) => seq!["Audio codec: "@ + b],
        None => Seq::empty(),
    })
}

/// Spec: the closing lines: the ffmpeg mode, the command preview and the
/// overwrite and backup flags.
pub open spec fn tail_lines_spec(p: Plan, overwrite: bool) -> Seq<Seq<char>> {
    line_if(
        p.backend == Some(Backend::Ffmpeg),
        "FFmpeg mode: "@ + preference_name_spec(p.options.ffmpeg_preference),
    ) + (match command_preview_spec(p) {
        Some(c) => seq!["Command preview: "@ + c],
        None => Seq::empty(),
    }) + seq!["Overwrite: "@ + yes_no_spec(overwrite)] + seq!["Backup: "@ + yes_no_spec(p.backup)]
}

/// Spec: the ordered lines of the plan report.
pub open spec fn render_lines_spec(p: Plan, overwrite: bool) -> Seq<Seq<char>> {
    header_lines_spec(p) + option_lines_spec(p) + tail_lines_spec(p, overwrite) + prefix_all(
        "Note: "@,
        seq_views(p.notes@),
    )
}

/// Spec: the whole report, its lines joined with newlines.
pub open spec fn render_plan_spec(p: Plan, overwrite: bool) -> Seq<char> {
    join_sep(render_lines_spec(p, overwrite), "\n"@)
}

/// Appends one labelled line.
fn push_line(lines: &mut Vec<String>, prefix: &str, value: &str)
    ensures
        seq_views(final(lines)@) == seq_views(old(lines)@).push(prefix@ + value@),
{
    let ghost before = lines@;
    let line = String::from_str(prefix).concat(value);
    lines.push(line);
    proof {
        lemma_seq_views_push(before, line);
    }
}

/// Appends the leading report lines.
fn push_header_lines(lines: &mut Vec<String>, plan: &Plan)
    ensures
        seq_views(final(lines)@) == seq_views(old(lines)@) + header_lines_spec(*plan),
{
    let ghost before = seq_views(lines@);
    push_line(lines, "Source: ", plan.source.as_str());
    push_line(lines, "Destination: ", plan.destination.as_str());
    match &plan.detected.mime {
        Some(m) => push_line(lines, "Detected: ", m.as_str()),
        None => push_line(lines, "Detected: ", "unknown"),
    }
    if let Some(e) = &plan.detected.ext_hint {
        push_line(lines, "Detected extension: ", e.as_str());
    }
    push_line(lines, "Strategy: ", strategy_name(plan.strategy));
    if let Some(e) = &plan.dest_ext {
        push_line(lines, "Destination extension: ", e.as_str());
    }
    if let Some(b) = plan.backend {
        push_line(lines, "Backend: ", backend_name(b));
    }
    push_line(lines, "Destination kind: ", kind_name(plan.dest_kind));
    proof {
        assert(seq_views(lines@) =~~= before + header_lines_spec(*plan));
    }
}

/// Appends one line for every option that is set.
fn push_option_lines(lines: &mut Vec<String>, plan: &Plan)
    ensures
        seq_views(final(lines)@) == seq_views(old(lines)@) + option_lines_spec(*plan),
{
    let ghost before = seq_views(lines@);
    if let Some(q) = plan.options.image_quality {
        let value = u64_to_string(q as u64);
        push_line(lines, "Image quality: ", value.as_str());
    }
    if let Some(b) = &plan.options.video_bitrate {
        push_line(lines, "Video bitrate: ", b.as_str());
    }
    if let Some(b) = &plan.options.audio_bitrate {
        push_line(lines, "Audio bitrate: ", b.as_str());
    }
    if let Some(b) = &plan.options.preset {
        push_line(lines, "Preset: ", b.as_str());
    }
    if let Some(b) = &plan.options.video_codec {
        push_line(lines, "Video codec: ", b.as_str());
    }
    if let Some(b) = &plan.options.audio_codec {
        push_line(lines, "Audio codec: ", b.as_str());
    }
    proof {
        assert(seq_views(lines@) =~~= before + option_lines_spec(*plan));
    }
}

/// Appends the closing lines.
fn push_tail_lines(lines: &mut Vec<String>, plan: &Plan, overwrite: bool)
    ensures
        seq_views(final(lines)@) == seq_views(old(lines)@) + tail_lines_spec(*plan, overwrite),
{
    let ghost before = seq_views(lines@);
    if matches!(plan.backend, Some(Backend::Ffmpeg)) {
        push_line(lines, "FFmpeg mode: ", preference_name(plan.options.ffmpeg_preference));
    }
    if let Some(c) = command_preview(plan) {
        push_line(lines, "Command preview: ", c.as_str());
    }
    push_line(lines, "Overwrite: ", if overwrite { "yes" } else { "no" });
    push_line(lines, "Backup: ", if plan.backup { "yes" } else { "no" });
    proof {
        assert(seq_views(lines@) =~~= before + tail_lines_spec(*plan, overwrite));
    }
}

/// Appends one prefixed line per note.
fn push_note_lines(lines: &mut Vec<String>, notes: &Vec<String>)
    ensures
        seq_views(final(lines)@) == seq_views(old(lines)@) + prefix_all(
            "Note: "@,
            seq_views(notes@),
        ),
{
    let ghost base = seq_views(lines@);
    let total: usize = notes.len();
    let mut i: usize = 0;
    while i < total
        invariant
            total == notes@.len(),
            i <= total,
            seq_views(lines@) == base + prefix_all("Note: "@, seq_views(notes@)).subrange(
                0,
                i as int,
            ),
        decreases total - i,
    {
        push_line(lines, "Note: ", notes[i].as_str());
        i = i + 1;
        proof {
            let all = prefix_all("Note: "@, seq_views(notes@));
            assert(all.subrange(0, i as int) =~~= all.subrange(0, i - 1).push(all[i - 1]));
            assert(all[i - 1] == "Note: "@ + notes@[i - 1]@);
            assert(seq_views(lines@) =~~= base + all.subrange(0, i as int));
        }
    }
    proof {
        let all = prefix_all("Note: "@, seq_views(notes@));
        assert(all.subrange(0, total as int) =~~= all);
    }
}

/// Renders the plan as the multi-line report: source, destination, detected
/// type, strategy, backend, destination classification, every set option,
/// the command preview, the overwrite and backup flags, and the notes.
pub fn render_plan(plan: &Plan, overwrite: bool) -> (r: String)
    ensures
        r@ == render_plan_spec(*plan, overwrite),
{
    let mut lines: Vec<String> = Vec::new();
    proof {
        assert(seq_views(lines@) =~~= Seq::<Seq<char>>::empty());
    }
    push_header_lines(&mut lines, plan);
    proof {
        assert(Seq::<Seq<char>>::empty() + header_lines_spec(*plan) =~~= header_lines_spec(
            *plan,
        ));
    }
    push_option_lines(&mut lines, plan);
    push_tail_lines(&mut lines, plan, overwrite);
    push_note_lines(&mut lines, &plan.notes);
    proof {
        assert(seq_views(lines@) == render_lines_spec(*plan, overwrite));
    }
    join_strings(&lines, "\n")
}

} // verus!
