use mvx::batch::clean_input_lines;
use mvx::batch::dest_for_source;
use mvx::batch::looks_like_glob;
use mvx::batch::BatchInput;
use mvx::batch::BatchRunner;
use mvx::command::command_preview;
use mvx::config::apply_profile;
use mvx::config::parse_preference;
use mvx::config::ConfigError;
use mvx::config::Profile;
use mvx::detect::DetectedType;
use mvx::plan::build_plan;
use mvx::plan::ConversionOptions;
use mvx::plan::FfmpegPreference;
use mvx::render::render_plan;

fn detected() -> DetectedType {
    DetectedType::unknown()
}

#[test]
fn dest_with_extension_override() {
    let input = BatchInput {
        dest_dir: "/tmp/out".to_string(),
        to_ext: Some("mp3".to_string()),
    };
    let dest = dest_for_source(&input, "clip.wav").unwrap();
    assert_eq!(dest, "/tmp/out/clip.mp3");
}

#[test]
fn dest_without_override_keeps_file_name() {
    let input = BatchInput {
        dest_dir: "/tmp/out".to_string(),
        to_ext: None,
    };
    assert_eq!(dest_for_source(&input, "dir/clip.wav").unwrap(), "/tmp/out/clip.wav");
}

#[test]
fn override_leading_dots_are_dropped() {
    let input = BatchInput {
        dest_dir: "out".to_string(),
        to_ext: Some(".mp3".to_string()),
    };
    assert_eq!(dest_for_source(&input, "clip.wav").unwrap(), "out/clip.mp3");
}

#[test]
fn glob_detection() {
    assert!(looks_like_glob("*.png"));
    assert!(looks_like_glob("photo?.jpg"));
    assert!(looks_like_glob("shot[12].png"));
    assert!(!looks_like_glob("plain/path.png"));
}

#[test]
fn stdin_lines_are_trimmed_and_filtered() {
    let lines = clean_input_lines(" a.txt \n\n  \nb.txt\r\nc.txt");
    assert_eq!(lines, vec!["a.txt", "b.txt", "c.txt"]);
}

#[test]
fn batch_counts_and_failure_order() {
    let mut runner = BatchRunner::new();
    runner.record_success();
    runner.record_failure("bad.xyz".to_string(), "no backend".to_string());
    runner.record_success();
    let summary = runner.summary();
    assert_eq!(summary.total, 3);
    assert_eq!(summary.succeeded, 2);
    assert_eq!(summary.failed, 1);
    assert_eq!(runner.failures[0].source, "bad.xyz");

    runner.record_failure("worse.xyz".to_string(), "also bad".to_string());
    assert_eq!(runner.failures[0].source, "bad.xyz");
    assert_eq!(runner.failures[1].source, "worse.xyz");
}

#[test]
fn preference_words() {
    assert_eq!(parse_preference("auto"), Ok(FfmpegPreference::Auto));
    assert_eq!(parse_preference("Stream-Copy"), Ok(FfmpegPreference::StreamCopy));
    assert_eq!(parse_preference("stream_copy"), Ok(FfmpegPreference::StreamCopy));
    assert_eq!(parse_preference("transcode"), Ok(FfmpegPreference::Transcode));
    let err = parse_preference("fast").unwrap_err();
    assert_eq!(
        err,
        ConfigError::InvalidPreference {
            value: "fast".to_string()
        }
    );
    assert_eq!(err.message(), "invalid ffmpeg_preference: fast");
}

#[test]
fn profile_merge_overrides_set_fields_only() {
    let mut options = ConversionOptions {
        image_quality: Some(80),
        video_bitrate: Some("1000k".to_string()),
        ..ConversionOptions::default()
    };
    let profile = Profile {
        image_quality: Some(90),
        audio_bitrate: Some("192k".to_string()),
        ffmpeg_preference: Some("transcode".to_string()),
        ..Profile::default()
    };
    apply_profile(&profile, &mut options).unwrap();
    assert_eq!(options.image_quality, Some(90));
    assert_eq!(options.video_bitrate.as_deref(), Some("1000k"));
    assert_eq!(options.audio_bitrate.as_deref(), Some("192k"));
    assert_eq!(options.ffmpeg_preference, FfmpegPreference::Transcode);
}

#[test]
fn bad_profile_preference_fails_merge() {
    let mut options = ConversionOptions::default();
    let profile = Profile {
        ffmpeg_preference: Some("always".to_string()),
        ..Profile::default()
    };
    assert_eq!(
        apply_profile(&profile, &mut options),
        Err(ConfigError::InvalidPreference {
            value: "always".to_string()
        })
    );
    assert_eq!(options.ffmpeg_preference, FfmpegPreference::Auto);
}

#[test]
fn preview_shows_both_candidates_under_auto() {
    let plan = build_plan(
        "a.mp4",
        "b.webm",
        false,
        false,
        ConversionOptions::default(),
        detected(),
    )
    .unwrap();
    let preview = command_preview(&plan).unwrap();
    assert_eq!(
        preview,
        "ffmpeg -i a.mp4 -c copy b.webm (if compatible), else \
         ffmpeg -i a.mp4 -c:v libvpx-vp9 -c:a libopus b.webm"
    );
}

#[test]
fn preview_includes_quality_flag() {
    let options = ConversionOptions {
        image_quality: Some(85),
        ..ConversionOptions::default()
    };
    let plan = build_plan("a.png", "b.jpg", false, false, options, detected()).unwrap();
    assert_eq!(
        command_preview(&plan).unwrap(),
        "magick a.png -quality 85 b.jpg"
    );
}

#[test]
fn preview_selects_first_pdf_page() {
    let plan = build_plan(
        "scan.pdf",
        "page.png",
        false,
        false,
        ConversionOptions::default(),
        detected(),
    )
    .unwrap();
    assert_eq!(command_preview(&plan).unwrap(), "magick scan.pdf[0] page.png");
}

#[test]
fn rename_and_copy_plans_have_no_preview() {
    let plan = build_plan(
        "a.txt",
        "b.txt",
        false,
        false,
        ConversionOptions::default(),
        detected(),
    )
    .unwrap();
    assert_eq!(command_preview(&plan), None);
}

#[test]
fn render_plan_report_lines() {
    let plan = build_plan(
        "a.png",
        "b.jpg",
        false,
        false,
        ConversionOptions::default(),
        detected(),
    )
    .unwrap();
    let report = render_plan(&plan, false);
    let expected = "Source: a.png\n\
                    Destination: b.jpg\n\
                    Detected: unknown\n\
                    Strategy: convert\n\
                    Destination extension: jpg\n\
                    Backend: imagemagick\n\
                    Destination kind: image\n\
                    Command preview: magick a.png b.jpg\n\
                    Overwrite: no\n\
                    Backup: no\n\
                    Note: source will be kept";
    assert_eq!(report, expected);
}

#[test]
fn render_plan_shows_ffmpeg_mode_and_options() {
    let options = ConversionOptions {
        audio_bitrate: Some("192k".to_string()),
        ffmpeg_preference: FfmpegPreference::Transcode,
        ..ConversionOptions::default()
    };
    let plan = build_plan("a.wav", "b.mp3", false, false, options, detected()).unwrap();
    let report = render_plan(&plan, true);
    assert!(report.contains("Audio bitrate: 192k"));
    assert!(report.contains("FFmpeg mode: transcode"));
    assert!(report.contains("Overwrite: yes"));
    assert!(report.contains(
        "Command preview: ffmpeg -i a.wav -c:a libmp3lame -b:a 192k b.mp3"
    ));
}
