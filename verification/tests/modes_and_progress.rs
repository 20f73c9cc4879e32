use mvx::detect::DetectedType;
use mvx::mode::decide_ffmpeg_mode;
use mvx::mode::summarize_streams;
use mvx::mode::MediaInfo;
use mvx::mode::StreamDesc;
use mvx::plan::build_plan;
use mvx::plan::ConversionOptions;
use mvx::plan::FfmpegMode;
use mvx::plan::FfmpegPreference;
use mvx::progress::parse_duration_micros;
use mvx::progress::ProgressParser;
use mvx::progress::ProgressUpdate;

fn media_plan(dest: &str, preference: FfmpegPreference) -> mvx::plan::Plan {
    let options = ConversionOptions {
        ffmpeg_preference: preference,
        ..ConversionOptions::default()
    };
    build_plan("clip.avi", dest, false, false, options, DetectedType::unknown()).unwrap()
}

fn info(video: &str, audio: Option<&str>) -> MediaInfo {
    MediaInfo {
        duration_micros: None,
        video_codec: Some(video.to_string()),
        audio_codec: audio.map(str::to_string),
    }
}

#[test]
fn mkv_destination_always_stream_copies() {
    let plan = media_plan("out.mkv", FfmpegPreference::Auto);
    for codecs in [("mpeg2video", Some("wmav2")), ("h264", Some("aac"))] {
        let mode = decide_ffmpeg_mode(&plan, Some(&info(codecs.0, codecs.1)));
        assert_eq!(mode, FfmpegMode::StreamCopy);
    }
}

#[test]
fn mp4_destination_checks_codecs() {
    let plan = media_plan("out.mp4", FfmpegPreference::Auto);
    let incompatible = decide_ffmpeg_mode(&plan, Some(&info("vp9", None)));
    assert_eq!(incompatible, FfmpegMode::Transcode);
    let compatible = decide_ffmpeg_mode(&plan, Some(&info("h264", Some("aac"))));
    assert_eq!(compatible, FfmpegMode::StreamCopy);
}

#[test]
fn explicit_stream_copy_preference_wins() {
    let plan = media_plan("out.mp4", FfmpegPreference::StreamCopy);
    let mode = decide_ffmpeg_mode(&plan, Some(&info("vp9", Some("vorbis"))));
    assert_eq!(mode, FfmpegMode::StreamCopy);
}

#[test]
fn missing_probe_transcodes_conservatively() {
    let plan = media_plan("out.mp4", FfmpegPreference::Auto);
    assert_eq!(decide_ffmpeg_mode(&plan, None), FfmpegMode::Transcode);
}

#[test]
fn audio_destination_always_transcodes() {
    let plan = media_plan("out.mp3", FfmpegPreference::Auto);
    let mode = decide_ffmpeg_mode(&plan, Some(&info("h264", Some("mp3"))));
    assert_eq!(mode, FfmpegMode::Transcode);
}

#[test]
fn probe_summary_picks_first_named_streams() {
    let streams = vec![
        StreamDesc {
            codec_type: Some("video".to_string()),
            codec_name: None,
        },
        StreamDesc {
            codec_type: Some("video".to_string()),
            codec_name: Some("h264".to_string()),
        },
        StreamDesc {
            codec_type: Some("audio".to_string()),
            codec_name: Some("aac".to_string()),
        },
        StreamDesc {
            codec_type: Some("audio".to_string()),
            codec_name: Some("mp3".to_string()),
        },
    ];
    let summary = summarize_streams(Some(1_000_000), streams);
    assert_eq!(summary.duration_micros, Some(1_000_000));
    assert_eq!(summary.video_codec.as_deref(), Some("h264"));
    assert_eq!(summary.audio_codec.as_deref(), Some("aac"));
}

#[test]
fn duration_parsing() {
    assert_eq!(parse_duration_micros("5"), Some(5_000_000));
    assert_eq!(parse_duration_micros("5.025000"), Some(5_025_000));
    assert_eq!(parse_duration_micros("0.5"), Some(500_000));
    assert_eq!(parse_duration_micros(".5"), Some(500_000));
    assert_eq!(parse_duration_micros("7."), Some(7_000_000));
    assert_eq!(parse_duration_micros("1.2345678"), Some(1_234_567));
    assert_eq!(parse_duration_micros(""), None);
    assert_eq!(parse_duration_micros("."), None);
    assert_eq!(parse_duration_micros("1.2.3"), None);
    assert_eq!(parse_duration_micros("abc"), None);
}

#[test]
fn progress_emits_on_whole_percent_moves() {
    let mut parser = ProgressParser::new(Some(2_000_000));
    assert_eq!(
        parser.feed_line("out_time_ms=1000000"),
        Some(ProgressUpdate::Percent {
            percent: 50,
            eta_micros: 1_000_000
        })
    );
    // The same position again: the percentage has not moved.
    assert_eq!(parser.feed_line("out_time_ms=1000000"), None);
    assert_eq!(
        parser.feed_line("out_time_ms=1500000"),
        Some(ProgressUpdate::Percent {
            percent: 75,
            eta_micros: 500_000
        })
    );
    // Beyond the duration the percentage is capped.
    assert_eq!(
        parser.feed_line("out_time_ms=9000000"),
        Some(ProgressUpdate::Percent {
            percent: 100,
            eta_micros: 0
        })
    );
    assert_eq!(
        parser.feed_line("progress=end"),
        Some(ProgressUpdate::Ended)
    );
}

#[test]
fn progress_without_duration_uses_one_second_cadence() {
    let mut parser = ProgressParser::new(None);
    assert_eq!(
        parser.feed_line("out_time_ms=100000"),
        Some(ProgressUpdate::Elapsed { micros: 100_000 })
    );
    assert_eq!(parser.feed_line("out_time_ms=900000"), None);
    assert_eq!(
        parser.feed_line("out_time_ms=1100000"),
        Some(ProgressUpdate::Elapsed { micros: 1_100_000 })
    );
}

#[test]
fn progress_ignores_other_lines() {
    let mut parser = ProgressParser::new(Some(1_000_000));
    assert_eq!(parser.feed_line("frame=10"), None);
    assert_eq!(parser.feed_line("out_time_ms=oops"), None);
    assert_eq!(parser.feed_line("out_time_ms= 500000 "), Some(
        ProgressUpdate::Percent {
            percent: 50,
            eta_micros: 500_000
        }
    ));
}
