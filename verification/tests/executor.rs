use mvx::detect::DetectedType;
use mvx::execute::backup_candidate;
use mvx::execute::temp_output_path;
use mvx::execute::ExecAction;
use mvx::execute::ExecError;
use mvx::execute::ExecEvent;
use mvx::execute::Executor;
use mvx::plan::build_plan;
use mvx::plan::Backend;
use mvx::plan::ConversionOptions;

fn plan_for(source: &str, dest: &str, move_source: bool, backup: bool) -> mvx::plan::Plan {
    build_plan(
        source,
        dest,
        move_source,
        backup,
        ConversionOptions::default(),
        DetectedType::unknown(),
    )
    .unwrap()
}

#[test]
fn copy_only_never_touches_the_source() {
    let plan = plan_for("dir/in.txt", "dir/out.txt", false, false);
    let (mut exec, first) = Executor::start(plan, false);
    match first {
        ExecAction::CreateParentDir { dir } => assert_eq!(dir, "dir"),
        other => panic!("unexpected action {:?}", other),
    }
    match exec.step(ExecEvent::Completed) {
        ExecAction::CheckExists { path } => assert_eq!(path, "dir/out.txt"),
        other => panic!("unexpected action {:?}", other),
    }
    match exec.step(ExecEvent::Exists { exists: false }) {
        ExecAction::CopyViaTemp { source, dest_dir } => {
            assert_eq!(source, "dir/in.txt");
            assert_eq!(dest_dir, "dir");
        }
        other => panic!("unexpected action {:?}", other),
    }
    match exec.step(ExecEvent::TempCopied {
        temp: "dir/.tmp123".to_string(),
    }) {
        ExecAction::PersistTemp { temp, dest } => {
            assert_eq!(temp, "dir/.tmp123");
            assert_eq!(dest, "dir/out.txt");
        }
        other => panic!("unexpected action {:?}", other),
    }
    match exec.step(ExecEvent::Completed) {
        ExecAction::Finish { result } => assert!(result.is_ok()),
        other => panic!("unexpected action {:?}", other),
    }
}

#[test]
fn backup_rotation_names() {
    assert_eq!(backup_candidate("out.mp4", 0), "out.mp4.bak");
    assert_eq!(backup_candidate("out.mp4", 1), "out.mp4.bak.1");
    assert_eq!(backup_candidate("out.mp4", 25), "out.mp4.bak.25");
}

#[test]
fn backup_rotation_picks_first_free_name() {
    let plan = plan_for("in.mp4", "out.mp4", false, true);
    let (mut exec, _) = Executor::start(plan, false);
    exec.step(ExecEvent::Completed);
    match exec.step(ExecEvent::Exists { exists: true }) {
        ExecAction::CheckExists { path } => assert_eq!(path, "out.mp4.bak"),
        other => panic!("unexpected action {:?}", other),
    }
    match exec.step(ExecEvent::Exists { exists: true }) {
        ExecAction::CheckExists { path } => assert_eq!(path, "out.mp4.bak.1"),
        other => panic!("unexpected action {:?}", other),
    }
    match exec.step(ExecEvent::Exists { exists: false }) {
        ExecAction::RotateBackup { from, to } => {
            assert_eq!(from, "out.mp4");
            assert_eq!(to, "out.mp4.bak.1");
        }
        other => panic!("unexpected action {:?}", other),
    }
}

#[test]
fn destination_exists_without_overwrite_fails() {
    let plan = plan_for("in.txt", "out.txt", false, false);
    let (mut exec, _) = Executor::start(plan, false);
    exec.step(ExecEvent::Completed);
    match exec.step(ExecEvent::Exists { exists: true }) {
        ExecAction::Finish { result } => {
            assert_eq!(result.err(), Some(ExecError::DestinationExists));
        }
        other => panic!("unexpected action {:?}", other),
    }
}

#[test]
fn imagemagick_falls_back_to_legacy_binary() {
    let plan = plan_for("a.png", "b.jpg", false, false);
    let (mut exec, _) = Executor::start(plan, false);
    exec.step(ExecEvent::Completed);
    exec.step(ExecEvent::Exists { exists: false });
    match exec.step(ExecEvent::TempDirCreated {
        path: ".mvxtmp".to_string(),
    }) {
        ExecAction::RunTool { tool, binary, args } => {
            assert_eq!(tool, Backend::ImageMagick);
            assert_eq!(binary, "magick");
            assert_eq!(args, vec!["a.png", ".mvxtmp/output.jpg"]);
        }
        other => panic!("unexpected action {:?}", other),
    }
    match exec.step(ExecEvent::ToolNotFound) {
        ExecAction::RunTool { tool, binary, args } => {
            assert_eq!(tool, Backend::ImageMagick);
            assert_eq!(binary, "convert");
            assert_eq!(args, vec!["a.png", ".mvxtmp/output.jpg"]);
        }
        other => panic!("unexpected action {:?}", other),
    }
    match exec.step(ExecEvent::ToolNotFound) {
        ExecAction::Finish { result } => {
            let err = result.err().unwrap();
            assert_eq!(
                err.message(),
                "ImageMagick not found; install it (e.g., apt install imagemagick)"
            );
        }
        other => panic!("unexpected action {:?}", other),
    }
}

#[test]
fn convert_deletes_source_only_after_finalize() {
    let plan = plan_for("a.png", "b.jpg", true, false);
    let (mut exec, _) = Executor::start(plan, false);
    exec.step(ExecEvent::Completed);
    exec.step(ExecEvent::Exists { exists: false });
    exec.step(ExecEvent::TempDirCreated {
        path: ".mvxtmp".to_string(),
    });
    match exec.step(ExecEvent::ToolExit {
        success: true,
        status: 0,
    }) {
        ExecAction::CheckFileSize { path } => assert_eq!(path, ".mvxtmp/output.jpg"),
        other => panic!("unexpected action {:?}", other),
    }
    match exec.step(ExecEvent::SizeIs { bytes: 1024 }) {
        ExecAction::RenameFile { from, to } => {
            assert_eq!(from, ".mvxtmp/output.jpg");
            assert_eq!(to, "b.jpg");
        }
        other => panic!("unexpected action {:?}", other),
    }
    match exec.step(ExecEvent::Completed) {
        ExecAction::DeleteSource { path } => assert_eq!(path, "a.png"),
        other => panic!("unexpected action {:?}", other),
    }
    match exec.step(ExecEvent::Completed) {
        ExecAction::Finish { result } => assert!(result.is_ok()),
        other => panic!("unexpected action {:?}", other),
    }
}

#[test]
fn empty_output_fails_even_on_success_exit() {
    let plan = plan_for("a.png", "b.jpg", false, false);
    let (mut exec, _) = Executor::start(plan, false);
    exec.step(ExecEvent::Completed);
    exec.step(ExecEvent::Exists { exists: false });
    exec.step(ExecEvent::TempDirCreated {
        path: ".mvxtmp".to_string(),
    });
    exec.step(ExecEvent::ToolExit {
        success: true,
        status: 0,
    });
    match exec.step(ExecEvent::SizeIs { bytes: 0 }) {
        ExecAction::Finish { result } => {
            assert_eq!(result.err(), Some(ExecError::OutputEmpty));
            assert_eq!(ExecError::OutputEmpty.message(), "output file is empty");
        }
        other => panic!("unexpected action {:?}", other),
    }
}

#[test]
fn tool_failure_reports_name_and_status() {
    let err = ExecError::ToolFailed {
        tool: Backend::Ffmpeg,
        status: 1,
    };
    assert_eq!(err.message(), "ffmpeg exited with status 1");
    let neg = ExecError::ToolFailed {
        tool: Backend::ImageMagick,
        status: -9,
    };
    assert_eq!(neg.message(), "ImageMagick exited with status -9");
}

#[test]
fn office_output_must_be_pdf() {
    // A raw `.PDF` destination normalizes to the office backend, but the
    // tool invocation itself insists on the literal lowercase extension.
    let plan = plan_for("a.docx", "b.PDF", false, false);
    assert_eq!(plan.backend, Some(Backend::LibreOffice));
    let (mut exec, _) = Executor::start(plan, false);
    exec.step(ExecEvent::Completed);
    exec.step(ExecEvent::Exists { exists: false });
    match exec.step(ExecEvent::TempDirCreated {
        path: ".mvxtmp".to_string(),
    }) {
        ExecAction::Finish { result } => {
            assert_eq!(result.err(), Some(ExecError::UnsupportedOfficeOutput));
        }
        other => panic!("unexpected action {:?}", other),
    }
}

#[test]
fn office_artifact_is_renamed_to_requested_name() {
    let plan = plan_for("report.docx", "out/final.pdf", false, false);
    let (mut exec, _) = Executor::start(plan, false);
    exec.step(ExecEvent::Completed);
    exec.step(ExecEvent::Exists { exists: false });
    match exec.step(ExecEvent::TempDirCreated {
        path: "out/.tmp".to_string(),
    }) {
        ExecAction::RunTool { tool, binary, args } => {
            assert_eq!(tool, Backend::LibreOffice);
            assert_eq!(binary, "soffice");
            assert_eq!(
                args,
                vec![
                    "--headless",
                    "--convert-to",
                    "pdf",
                    "--outdir",
                    "out/.tmp",
                    "report.docx"
                ]
            );
        }
        other => panic!("unexpected action {:?}", other),
    }
    match exec.step(ExecEvent::ToolExit {
        success: true,
        status: 0,
    }) {
        ExecAction::CheckExists { path } => assert_eq!(path, "out/.tmp/output.pdf"),
        other => panic!("unexpected action {:?}", other),
    }
    match exec.step(ExecEvent::Exists { exists: false }) {
        ExecAction::RenameFile { from, to } => {
            assert_eq!(from, "out/.tmp/report.pdf");
            assert_eq!(to, "out/.tmp/output.pdf");
        }
        other => panic!("unexpected action {:?}", other),
    }
}

#[test]
fn unsupported_conversion_fails_at_dispatch() {
    let plan = plan_for("a.txt", "b.mp3", false, false);
    assert_eq!(plan.backend, None);
    let (mut exec, _) = Executor::start(plan, false);
    exec.step(ExecEvent::Completed);
    match exec.step(ExecEvent::Exists { exists: false }) {
        ExecAction::Finish { result } => {
            assert_eq!(result.err(), Some(ExecError::NoBackend));
        }
        other => panic!("unexpected action {:?}", other),
    }
}

#[test]
fn overwrite_removes_destination_before_rename() {
    let plan = plan_for("a.txt", "b.txt", true, false);
    let (mut exec, _) = Executor::start(plan, true);
    exec.step(ExecEvent::Completed);
    match exec.step(ExecEvent::Exists { exists: true }) {
        ExecAction::RemoveFile { path } => assert_eq!(path, "b.txt"),
        other => panic!("unexpected action {:?}", other),
    }
    match exec.step(ExecEvent::Completed) {
        ExecAction::RenameFile { from, to } => {
            assert_eq!(from, "a.txt");
            assert_eq!(to, "b.txt");
        }
        other => panic!("unexpected action {:?}", other),
    }
    match exec.step(ExecEvent::Completed) {
        ExecAction::Finish { result } => assert!(result.is_ok()),
        other => panic!("unexpected action {:?}", other),
    }
}

#[test]
fn temp_output_uses_destination_extension() {
    assert_eq!(temp_output_path(".tmp", "video.mkv"), ".tmp/output.mkv");
    assert_eq!(temp_output_path(".tmp", "noext"), ".tmp/output.out");
}
