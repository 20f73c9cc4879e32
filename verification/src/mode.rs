//! The mode decider: given the plan's ffmpeg preference and the optionally
//! probed source media info, chooses between stream copy and transcode.

use vstd::prelude::*;
use crate::plan::FfmpegMode;
use crate::plan::FfmpegPreference;
use crate::plan::MediaKind;
use crate::plan::Plan;
use crate::plan::os_view;
use crate::strings::str_eq;

verus! {

/// What probing the source reported: a duration in microseconds and the
/// codecs of the first named video and audio streams. Every field degrades
/// to `None` when the probe could not tell.
#[derive(Debug, Clone)]
pub struct MediaInfo {
    pub duration_micros: Option<u64>,
    pub video_codec: Option<String>,
    pub audio_codec: Option<String>,
}

/// One stream as the probe reported it.
#[derive(Debug, Clone)]
pub struct StreamDesc {
    pub codec_type: Option<String>,
    pub codec_name: Option<String>,
}

/// Spec: the codec name of the first stream of the given kind that names
/// one.
pub open spec fn first_named_codec(streams: Seq<StreamDesc>, kind: Seq<char>) -> Option<Seq<char>>
    decreases streams.len(),
{
    if streams.len() == 0 {
        None
    } else if os_view(streams[0].codec_type) == Some(kind) && streams[0].codec_name is Some {
        Some(streams[0].codec_name->0@)
    } else {
        first_named_codec(streams.drop_first(), kind)
    }
}

/// When no stream in a prefix matches, the search over the whole sequence
/// equals the search over the rest.
proof fn lemma_first_named_codec_skip(streams: Seq<StreamDesc>, kind: Seq<char>, i: int)
    requires
        0 <= i <= streams.len(),
        forall|j: int|
            0 <= j < i ==> !(os_view(streams[j].codec_type) == Some(kind)
                && streams[j].codec_name is Some),
    ensures
        first_named_codec(streams, kind) == first_named_codec(
            streams.subrange(i, streams.len() as int),
            kind,
        ),
    decreases i,
{
    if i > 0 {
        lemma_first_named_codec_skip(streams, kind, i - 1);
        let tail = streams.subrange(i - 1, streams.len() as int);
        assert(tail[0] == streams[i - 1]);
        assert(tail.drop_first() =~= streams.subrange(i, streams.len() as int));
    } else {
        assert(streams.subrange(0, streams.len() as int) =~= streams);
    }
}

/// The codec name of the first stream of the given kind that names one.
fn first_codec_of(streams: &Vec<StreamDesc>, kind: &str) -> (r: Option<String>)
    ensures
        os_view(r) == first_named_codec(streams@, kind@),
{
    let n: usize = streams.len();
    let mut i: usize = 0;
    while i < n
        invariant
            n == streams@.len(),
            i <= n,
            forall|j: int|
                0 <= j < i ==> !(os_view(streams@[j].codec_type) == Some(kind@)
                    && streams@[j].codec_name is Some),
        decreases n - i,
    {
        let matches_kind = match &streams[i].codec_type {
            Some(t) => str_eq(t.as_str(), kind),
            None => false,
        };
        if matches_kind {
            if let Some(name) = &streams[i].codec_name {
                proof {
                    lemma_first_named_codec_skip(streams@, kind@, i as int);
                    let tail = streams@.subrange(i as int, streams@.len() as int);
                    assert(tail[0] == streams@[i as int]);
                }
                return Some(name.clone());
            }
        }
        i = i + 1;
    }
    proof {
        lemma_first_named_codec_skip(streams@, kind@, n as int);
    }
    None
}

/// Builds the probe summary from a parsed duration and the stream list: the
/// first named video codec and the first named audio codec.
pub fn summarize_streams(duration_micros: Option<u64>, streams: Vec<StreamDesc>) -> (r: MediaInfo)
    ensures
        r.duration_micros == duration_micros,
        os_view(r.video_codec) == first_named_codec(streams@, "video"@),
        os_view(r.audio_codec) == first_named_codec(streams@, "audio"@),
{
    let video_codec = first_codec_of(&streams, "video");
    let audio_codec = first_codec_of(&streams, "audio");
    MediaInfo { duration_micros, video_codec, audio_codec }
}

/// Spec: the mode decision. An explicit preference short-circuits; an
/// audio destination, a missing destination extension, a missing probe or
/// an unnamed video codec transcode conservatively; `mkv` always stream
/// copies; `mp4`/`mov` and `webm` stream copy only for compatible codecs;
/// everything else transcodes.
pub open spec fn decide_ffmpeg_mode_spec(p: Plan, info: Option<MediaInfo>) -> FfmpegMode {
    if p.options.ffmpeg_preference == FfmpegPreference::StreamCopy {
        FfmpegMode::StreamCopy
    } else if p.options.ffmpeg_preference == FfmpegPreference::Transcode {
        FfmpegMode::Transcode
    } else if p.dest_kind == MediaKind::Audio {
        FfmpegMode::Transcode
    } else if os_view(p.dest_ext) is None {
        FfmpegMode::Transcode
    } else if info is None {
        FfmpegMode::Transcode
    } else if os_view(info->0.video_codec) is None {
        FfmpegMode::Transcode
    } else {
        let de = os_view(p.dest_ext)->0;
        let v = info->0.video_codec->0@;
        let a = os_view(info->0.audio_codec);
        if de == "mkv"@ {
            FfmpegMode::StreamCopy
        } else if de == "mp4"@ || de == "mov"@ {
            if (v == "h264"@ || v == "hevc"@ || v == "mpeg4"@ || v == "av1"@) && (a is None || a->0
                == "aac"@ || a->0 == "mp3"@ || a->0 == "alac"@) {
                FfmpegMode::StreamCopy
            } else {
                FfmpegMode::Transcode
            }
        } else if de == "webm"@ {
            if (v == "vp8"@ || v == "vp9"@ || v == "av1"@) && (a is None || a->0 == "opus"@ || a->0
                == "vorbis"@) {
                FfmpegMode::StreamCopy
            } else {
                FfmpegMode::Transcode
            }
        } else {
            FfmpegMode::Transcode
        }
    }
}

/// Chooses stream copy or transcode for an ffmpeg conversion.
pub fn decide_ffmpeg_mode(plan: &Plan, info: Option<&MediaInfo>) -> (r: FfmpegMode)
    ensures
        match info {
            Some(i) => r == decide_ffmpeg_mode_spec(*plan, Some(*i)),
            None => r == decide_ffmpeg_mode_spec(*plan, None::<MediaInfo>),
        },
{
    match plan.options.ffmpeg_preference {
        FfmpegPreference::StreamCopy => {
            return FfmpegMode::StreamCopy;
        },
        FfmpegPreference::Transcode => {
            return FfmpegMode::Transcode;
        },
        FfmpegPreference::Auto => {},
    }
    if matches!(plan.dest_kind, MediaKind::Audio) {
        return FfmpegMode::Transcode;
    }
    let dest_ext = match &plan.dest_ext {
        Some(e) => e.as_str(),
        None => {
            return FfmpegMode::Transcode;
        },
    };
    let info = match info {
        Some(i) => i,
        None => {
            return FfmpegMode::Transcode;
        },
    };
    let video = match &info.video_codec {
        Some(v) => v.as_str(),
        None => {
            return FfmpegMode::Transcode;
        },
    };
    let audio = match &info.audio_codec {
        Some(a) => Some(a.as_str()),
        None => None,
    };
    if str_eq(dest_ext, "mkv") {
        return FfmpegMode::StreamCopy;
    }
    if str_eq(dest_ext, "mp4") || str_eq(dest_ext, "mov") {
        let video_ok = str_eq(video, "h264") || str_eq(video, "hevc") || str_eq(video, "mpeg4")
            || str_eq(video, "av1");
        let audio_ok = match audio {
            Some(a) => str_eq(a, "aac") || str_eq(a, "mp3") || str_eq(a, "alac"),
            None => true,
        };
        if video_ok && audio_ok {
            return FfmpegMode::StreamCopy;
        }
        return FfmpegMode::Transcode;
    }
    if str_eq(dest_ext, "webm") {
        let video_ok = str_eq(video, "vp8") || str_eq(video, "vp9") || str_eq(video, "av1");
        let audio_ok = match audio {
            Some(a) => str_eq(a, "opus") || str_eq(a, "vorbis"),
            None => true,
        };
        if video_ok && audio_ok {
            return FfmpegMode::StreamCopy;
        }
        return FfmpegMode::Transcode;
    }
    FfmpegMode::Transcode
}

/// Law: a forced stream-copy preference yields stream copy whatever the
/// destination and whatever the probe reported, incompatible codecs
/// included.
pub proof fn lemma_forced_stream_copy(p: Plan, info: Option<MediaInfo>)
    requires
        p.options.ffmpeg_preference == FfmpegPreference::StreamCopy,
    ensures
        decide_ffmpeg_mode_spec(p, info) == FfmpegMode::StreamCopy,
{
}

/// Law: with an automatic preference, a non-audio `mkv` destination whose
/// probe names a video codec stream copies regardless of which codecs the
/// source uses.
pub proof fn lemma_mkv_always_stream_copies(p: Plan, info: MediaInfo)
    requires
        p.options.ffmpeg_preference == FfmpegPreference::Auto,
        p.dest_kind != MediaKind::Audio,
        os_view(p.dest_ext) == Some("mkv"@),
        info.video_codec is Some,
    ensures
        decide_ffmpeg_mode_spec(p, Some(info)) == FfmpegMode::StreamCopy,
{
}

} // verus!
