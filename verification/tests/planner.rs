use mvx::detect::DetectedType;
use mvx::plan::build_plan;
use mvx::plan::normalize_ext;
use mvx::plan::validate_bitrate;
use mvx::plan::Backend;
use mvx::plan::ConversionOptions;
use mvx::plan::FfmpegPreference;
use mvx::plan::MediaKind;
use mvx::plan::PlanError;
use mvx::plan::Strategy;

fn detected() -> DetectedType {
    DetectedType::unknown()
}

#[test]
fn normalize_extension_aliases() {
    assert_eq!(normalize_ext("photo.JPEG").as_deref(), Some("jpg"));
    assert_eq!(normalize_ext("index.HTM").as_deref(), Some("html"));
    assert_eq!(normalize_ext("clip.mp4").as_deref(), Some("mp4"));
}

#[test]
fn plan_selects_copy_vs_rename() {
    let plan_copy = build_plan(
        "a.jpg",
        "b.jpeg",
        false,
        false,
        ConversionOptions::default(),
        detected(),
    )
    .unwrap();
    assert_eq!(plan_copy.strategy, Strategy::CopyOnly);

    let plan_rename = build_plan(
        "a.jpg",
        "b.jpeg",
        true,
        false,
        ConversionOptions::default(),
        detected(),
    )
    .unwrap();
    assert_eq!(plan_rename.strategy, Strategy::RenameOnly);
}

#[test]
fn plan_selects_convert() {
    let plan = build_plan(
        "a.png",
        "b.jpg",
        false,
        false,
        ConversionOptions::default(),
        detected(),
    )
    .unwrap();
    assert_eq!(plan.strategy, Strategy::Convert);
}

#[test]
fn plan_selects_backend() {
    let image_plan = build_plan(
        "a.png",
        "b.jpg",
        false,
        false,
        ConversionOptions::default(),
        detected(),
    )
    .unwrap();
    assert_eq!(image_plan.backend, Some(Backend::ImageMagick));

    let media_plan = build_plan(
        "a.mp4",
        "b.webm",
        false,
        false,
        ConversionOptions::default(),
        detected(),
    )
    .unwrap();
    assert_eq!(media_plan.backend, Some(Backend::Ffmpeg));

    let doc_plan = build_plan(
        "a.docx",
        "b.pdf",
        false,
        false,
        ConversionOptions::default(),
        detected(),
    )
    .unwrap();
    assert_eq!(doc_plan.backend, Some(Backend::LibreOffice));
}

#[test]
fn rejects_invalid_quality() {
    let options = ConversionOptions {
        image_quality: Some(0),
        ..ConversionOptions::default()
    };
    let result = build_plan("a.png", "b.jpg", false, false, options, detected());
    assert!(result.is_err());
}

#[test]
fn rejects_invalid_preset() {
    let options = ConversionOptions {
        preset: Some("fastish".to_string()),
        ..ConversionOptions::default()
    };
    let result = build_plan("a.mp4", "b.webm", false, false, options, detected());
    assert!(result.is_err());
}

#[test]
fn rejects_invalid_bitrate() {
    let options = ConversionOptions {
        audio_bitrate: Some("12kbps".to_string()),
        ..ConversionOptions::default()
    };
    let result = build_plan("a.wav", "b.mp3", false, false, options, detected());
    assert!(result.is_err());
}

#[test]
fn rejects_empty_codec() {
    let options = ConversionOptions {
        video_codec: Some("  ".to_string()),
        ..ConversionOptions::default()
    };
    let result = build_plan("a.mp4", "b.webm", false, false, options, detected());
    assert!(result.is_err());
}

#[test]
fn equal_extensions_have_no_backend() {
    let copy = build_plan(
        "song.mp3",
        "other.mp3",
        false,
        false,
        ConversionOptions::default(),
        detected(),
    )
    .unwrap();
    assert_eq!(copy.strategy, Strategy::CopyOnly);
    assert_eq!(copy.backend, None);

    let rename = build_plan(
        "song.mp3",
        "other.mp3",
        true,
        false,
        ConversionOptions::default(),
        detected(),
    )
    .unwrap();
    assert_eq!(rename.strategy, Strategy::RenameOnly);
    assert_eq!(rename.backend, None);
}

#[test]
fn image_quality_bounds() {
    for q in [0u8, 101] {
        let options = ConversionOptions {
            image_quality: Some(q),
            ..ConversionOptions::default()
        };
        let result = build_plan("a.png", "b.jpg", false, false, options, detected());
        assert_eq!(result.err(), Some(PlanError::InvalidImageQuality));
    }
    for q in [1u8, 100] {
        let options = ConversionOptions {
            image_quality: Some(q),
            ..ConversionOptions::default()
        };
        let result = build_plan("a.png", "b.jpg", false, false, options, detected());
        assert!(result.is_ok());
    }
}

#[test]
fn bitrate_forms() {
    assert!(validate_bitrate("128k"));
    assert!(validate_bitrate("128"));
    assert!(validate_bitrate("2500K"));
    assert!(validate_bitrate("3m"));
    assert!(!validate_bitrate("128kbps"));
    assert!(!validate_bitrate(""));
    assert!(!validate_bitrate("k"));
}

#[test]
fn rejects_codec_of_unusual_whitespace() {
    // Vertical tab, form feed and no-break space are all whitespace, so a
    // codec made of them alone is empty after trimming.
    for blank in ["\u{000B}", "\u{000C}", "\u{00A0}", " \u{2003} "] {
        let options = ConversionOptions {
            audio_codec: Some(blank.to_string()),
            ..ConversionOptions::default()
        };
        let result = build_plan("a.mp4", "b.webm", false, false, options, detected());
        assert_eq!(result.err(), Some(PlanError::EmptyAudioCodec));
    }
}

#[test]
fn trailing_slash_and_dot_components() {
    // A trailing slash does not hide the file name; a bare dot component
    // names no file at all.
    assert_eq!(normalize_ext("a.txt/").as_deref(), Some("txt"));
    assert_eq!(normalize_ext("a/.."), None);
    assert_eq!(normalize_ext("."), None);

    let plan = build_plan(
        "a.txt/",
        "b.txt",
        false,
        false,
        ConversionOptions::default(),
        detected(),
    )
    .unwrap();
    assert_eq!(plan.strategy, Strategy::CopyOnly);
}

#[test]
fn rejects_same_source_and_destination() {
    let result = build_plan(
        "same.txt",
        "same.txt",
        false,
        false,
        ConversionOptions::default(),
        detected(),
    );
    assert_eq!(result.err(), Some(PlanError::SourceEqualsDestination));
    assert_eq!(
        PlanError::SourceEqualsDestination.message(),
        "source and destination must differ"
    );
}

#[test]
fn unsupported_conversion_still_plans() {
    let plan = build_plan(
        "a.txt",
        "b.mp3",
        false,
        false,
        ConversionOptions::default(),
        detected(),
    )
    .unwrap();
    assert_eq!(plan.strategy, Strategy::Convert);
    assert_eq!(plan.backend, None);
    assert_eq!(
        plan.notes.first().map(String::as_str),
        Some("no supported backend found for this conversion")
    );
}

#[test]
fn destination_classification() {
    let plan = build_plan(
        "a.wav",
        "b.mp3",
        false,
        false,
        ConversionOptions::default(),
        detected(),
    )
    .unwrap();
    assert_eq!(plan.dest_kind, MediaKind::Audio);
    assert_eq!(plan.dest_ext.as_deref(), Some("mp3"));

    let doc = build_plan(
        "a.md",
        "b.txt",
        false,
        false,
        ConversionOptions::default(),
        detected(),
    )
    .unwrap();
    assert_eq!(doc.dest_kind, MediaKind::Document);
}

#[test]
fn stream_copy_preference_notes_ignored_options() {
    let options = ConversionOptions {
        video_bitrate: Some("2500k".to_string()),
        ffmpeg_preference: FfmpegPreference::StreamCopy,
        ..ConversionOptions::default()
    };
    let plan = build_plan("a.mp4", "b.webm", false, false, options, detected()).unwrap();
    assert!(plan
        .notes
        .iter()
        .any(|n| n.as_str() == "video bitrate ignored when stream copy is forced"));
}
