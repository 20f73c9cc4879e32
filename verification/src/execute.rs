//! The executor, as a step machine. The machine holds the plan and decides,
//! step by step, which filesystem or subprocess action must happen next; the
//! surrounding program performs each action and reports what happened. All
//! ordering rules live here: parent directory first, backup rotation or the
//! destination-exists failure, staged temp output, the non-empty check,
//! atomic finalize, and source deletion strictly last.

use vstd::prelude::*;
use crate::command::ffmpeg_args;
use crate::command::ffmpeg_args_spec;
use crate::command::imagemagick_args;
use crate::command::imagemagick_args_spec;
use crate::command::imagemagick_basic_args;
use crate::command::imagemagick_basic_args_spec;
use crate::command::libreoffice_args;
use crate::command::libreoffice_args_spec;
use crate::mode::MediaInfo;
use crate::mode::decide_ffmpeg_mode;
use crate::mode::decide_ffmpeg_mode_spec;
use crate::numbers::dec_str;
use crate::numbers::u64_to_string;
use crate::pathing::ext_of_spec;
use crate::pathing::extension_of;
use crate::pathing::file_stem_of;
use crate::pathing::file_stem_spec;
use crate::pathing::find_last;
use crate::pathing::find_last_char;
use crate::pathing::join_path;
use crate::pathing::join_path_spec;
use crate::plan::Backend;
use crate::plan::Plan;
use crate::plan::Strategy;
use crate::plan::os_view;
use crate::strings::push_char;
use crate::strings::seq_views;
use crate::strings::str_eq;

verus! {

// ---------------------------------------------------------------------------
// Path computations
// ---------------------------------------------------------------------------

/// Spec: the directory part of a path: everything before the last `/`, the
/// root `/` itself when the slash leads, and empty when there is none.
pub open spec fn parent_dir_spec(path: Seq<char>) -> Seq<char> {
    let d = find_last(path, '/');
    if d == -1 {
        Seq::empty()
    } else if d == 0 {
        seq!['/']
    } else {
        path.subrange(0, d)
    }
}

/// The directory part of a path.
pub fn parent_dir_of(path: &str) -> (r: String)
    ensures
        r@ == parent_dir_spec(path@),
{
    match find_last_char(path, '/') {
        Some(d) => {
            if d == 0 {
                let mut out = String::new();
                push_char(&mut out, '/');
                proof {
                    assert(out@ =~= seq!['/']);
                }
                out
            } else {
                proof {
                    crate::pathing::lemma_find_last(path@, '/');
                }
                String::from_str(path.substring_char(0, d))
            }
        },
        None => String::new(),
    }
}

/// Spec: the staged output path inside a temp directory: `output` with the
/// destination's raw extension, or `output.out` when it has none.
pub open spec fn temp_output_spec(temp_dir: Seq<char>, destination: Seq<char>) -> Seq<char> {
    match ext_of_spec(destination) {
        Some(e) => join_path_spec(temp_dir, "output."@ + e),
        None => join_path_spec(temp_dir, "output.out"@),
    }
}

/// The staged output path inside a temp directory.
pub fn temp_output_path(temp_dir: &str, destination: &str) -> (r: String)
    ensures
        r@ == temp_output_spec(temp_dir@, destination@),
{
    let name = match extension_of(destination) {
        Some(e) => String::from_str("output.").concat(e),
        None => String::from_str("output.out"),
    };
    join_path(temp_dir, name.as_str())
}

/// Spec: the k-th backup name: `<dest>.bak` first, then `<dest>.bak.1`,
/// `<dest>.bak.2` and so on.
pub open spec fn backup_candidate_spec(destination: Seq<char>, index: u64) -> Seq<char> {
    if index == 0 {
        destination + ".bak"@
    } else {
        destination + ".bak."@ + dec_str(index as nat)
    }
}

/// The k-th backup name for a destination.
pub fn backup_candidate(destination: &str, index: u64) -> (r: String)
    ensures
        r@ == backup_candidate_spec(destination@, index),
{
    if index == 0 {
        String::from_str(destination).concat(".bak")
    } else {
        let n = u64_to_string(index);
        let r = String::from_str(destination).concat(".bak.").concat(n.as_str());
        proof {
            assert(r@ =~= destination@ + ".bak."@ + dec_str(index as nat));
        }
        r
    }
}

/// Spec: where the office tool leaves its artifact: the source's stem with
/// a `pdf` extension, inside the output directory it was given.
pub open spec fn office_artifact_spec(temp_dir: Seq<char>, source: Seq<char>) -> Seq<char> {
    join_path_spec(temp_dir, file_stem_spec(source) + ".pdf"@)
}

/// Where the office tool leaves its artifact.
pub fn office_artifact_path(temp_dir: &str, source: &str) -> (r: String)
    ensures
        r@ == office_artifact_spec(temp_dir@, source@),
{
    let name = String::from_str(file_stem_of(source)).concat(".pdf");
    join_path(temp_dir, name.as_str())
}

// ---------------------------------------------------------------------------
// Errors
// ---------------------------------------------------------------------------

/// Why executing a plan failed.
#[derive(Clone, Copy, Debug, PartialEq, Eq, Structural)]
pub enum ExecError {
    CreateDirFailed,
    DestinationExists,
    BackupFailed,
    BackupExhausted,
    NoBackend,
    TempDirFailed,
    CopyFailed,
    RemoveFailed,
    RenameFailed,
    FinalizeFailed,
    ToolMissing { tool: Backend },
    ToolFailed { tool: Backend, status: i32 },
    OutputEmpty,
    OutputStatFailed,
    OfficeFinalizeFailed,
    UnsupportedOfficeOutput,
    SourceRemoveFailed,
    UnexpectedEvent,
}

/// Spec: the tool name used in error messages.
pub open spec fn tool_name_spec(b: Backend) -> Seq<char> {
    match b {
        Backend::ImageMagick => "ImageMagick"@,
        Backend::Ffmpeg => "ffmpeg"@,
        Backend::LibreOffice => "LibreOffice"@,
    }
}

/// The tool name used in error messages.
pub fn tool_name(b: Backend) -> (r: &'static str)
    ensures
        r@ == tool_name_spec(b),
{
    match b {
        Backend::ImageMagick => "ImageMagick",
        Backend::Ffmpeg => "ffmpeg",
        Backend::LibreOffice => "LibreOffice",
    }
}

/// Spec: the install hint for a missing tool.
pub open spec fn install_hint_spec(b: Backend) -> Seq<char> {
    match b {
        Backend::ImageMagick => "ImageMagick not found; install it (e.g., apt install imagemagick)"@,
        Backend::Ffmpeg => "ffmpeg not found; install it (e.g., apt install ffmpeg)"@,
        Backend::LibreOffice => "LibreOffice not found; install libreoffice (e.g., apt install libreoffice)"@,
    }
}

/// Spec: the sign-aware decimal rendering of an exit status.
pub open spec fn status_str_spec(status: int) -> Seq<char> {
    if status < 0 {
        seq!['-'] + dec_str((-status) as nat)
    } else {
        dec_str(status as nat)
    }
}

/// Spec: the text `ExecError::message` returns.
pub open spec fn exec_error_message_spec(e: ExecError) -> Seq<char> {
    match e {
        ExecError::CreateDirFailed => "failed to create destination directory"@,
        ExecError::DestinationExists => "destination exists; pass --overwrite or --backup"@,
        ExecError::BackupFailed => "failed to backup destination"@,
        ExecError::BackupExhausted => "could not find available backup path"@,
        ExecError::NoBackend => "no backend available for conversion"@,
        ExecError::TempDirFailed => "failed to create temp directory"@,
        ExecError::CopyFailed => "failed to copy data"@,
        ExecError::RemoveFailed => "failed to remove existing destination"@,
        ExecError::RenameFailed => "failed to rename source"@,
        ExecError::FinalizeFailed => "failed to finalize destination"@,
        ExecError::ToolMissing { tool } => install_hint_spec(tool),
        ExecError::ToolFailed { tool, status } => tool_name_spec(tool)
            + " exited with status "@ + status_str_spec(status as int),
        ExecError::OutputEmpty => "output file is empty"@,
        ExecError::OutputStatFailed => "failed to stat output"@,
        ExecError::OfficeFinalizeFailed => "failed to finalize LibreOffice output"@,
        ExecError::UnsupportedOfficeOutput => "LibreOffice conversions only support PDF output"@,
        ExecError::SourceRemoveFailed => "failed to remove source"@,
        ExecError::UnexpectedEvent => "unexpected executor event"@,
    }
}

impl ExecError {
    /// Human-readable description of the failure.
    pub fn message(&self) -> (r: String)
        ensures
            r@ == exec_error_message_spec(*self),
    {
        match *self {
            ExecError::CreateDirFailed => String::from_str("failed to create destination directory"),
            ExecError::DestinationExists => String::from_str(
                "destination exists; pass --overwrite or --backup",
            ),
            ExecError::BackupFailed => String::from_str("failed to backup destination"),
            ExecError::BackupExhausted => String::from_str("could not find available backup path"),
            ExecError::NoBackend => String::from_str("no backend available for conversion"),
            ExecError::TempDirFailed => String::from_str("failed to create temp directory"),
            ExecError::CopyFailed => String::from_str("failed to copy data"),
            ExecError::RemoveFailed => String::from_str("failed to remove existing destination"),
            ExecError::RenameFailed => String::from_str("failed to rename source"),
            ExecError::FinalizeFailed => String::from_str("failed to finalize destination"),
            ExecError::ToolMissing { tool } => {
                match tool {
                    Backend::ImageMagick => String::from_str(
                        "ImageMagick not found; install it (e.g., apt install imagemagick)",
                    ),
                    Backend::Ffmpeg => String::from_str(
                        "ffmpeg not found; install it (e.g., apt install ffmpeg)",
                    ),
                    Backend::LibreOffice => String::from_str(
                        "LibreOffice not found; install libreoffice (e.g., apt install libreoffice)",
                    ),
                }
            },
            ExecError::ToolFailed { tool, status } => {
                let digits = if status < 0 {
                    let magnitude = (-(status as i64)) as u64;
                    let body = u64_to_string(magnitude);
                    let r = String::from_str("-").concat(body.as_str());
                    proof {
                        reveal_strlit("-");
                        assert(r@ =~= status_str_spec(status as int));
                    }
                    r
                } else {
                    u64_to_string(status as u64)
                };
                let r = String::from_str(tool_name(tool)).concat(" exited with status ").concat(
                    digits.as_str(),
                );
                proof {
                    assert(r@ =~= tool_name_spec(tool) + " exited with status "@ + status_str_spec(
                        status as int,
                    ));
                }
                r
            },
            ExecError::OutputEmpty => String::from_str("output file is empty"),
            ExecError::OutputStatFailed => String::from_str("failed to stat output"),
            ExecError::OfficeFinalizeFailed => String::from_str(
                "failed to finalize LibreOffice output",
            ),
            ExecError::UnsupportedOfficeOutput => String::from_str(
                "LibreOffice conversions only support PDF output",
            ),
            ExecError::SourceRemoveFailed => String::from_str("failed to remove source"),
            ExecError::UnexpectedEvent => String::from_str("unexpected executor event"),
        }
    }
}

// ---------------------------------------------------------------------------
// Actions, events, states
// ---------------------------------------------------------------------------

/// What the surrounding program must do next. Paths are plain strings; the
/// program answers with an `ExecEvent`.
#[derive(Debug)]
pub enum ExecAction {
    /// Create the directory tree; answer `Completed` or `Failed`.
    CreateParentDir { dir: String },
    /// Report whether the path exists; answer `Exists`.
    CheckExists { path: String },
    /// Rename the current destination to its backup name.
    RotateBackup { from: String, to: String },
    /// Remove the file; answer `Completed` or `Failed`.
    RemoveFile { path: String },
    /// Atomically rename a file; answer `Completed` or `Failed`.
    RenameFile { from: String, to: String },
    /// Create a hidden temp file in the directory and copy the source's
    /// bytes into it; answer `TempCopied` with its path, or `Failed`.
    CopyViaTemp { source: String, dest_dir: String },
    /// Atomically persist the temp file at the destination.
    PersistTemp { temp: String, dest: String },
    /// Create a scoped temp directory; answer `TempDirCreated`.
    CreateTempDir { parent: String },
    /// Probe the source's media streams; answer `Probed`.
    Probe { source: String },
    /// Run the tool with the arguments; answer `ToolExit` or `ToolNotFound`.
    RunTool { tool: Backend, binary: String, args: Vec<String> },
    /// Report the file's size in bytes; answer `SizeIs` or `Failed`.
    CheckFileSize { path: String },
    /// Remove the original source file, after a fully successful move.
    DeleteSource { path: String },
    /// Terminal: the plan finished with this result.
    Finish { result: Result<(), ExecError> },
}

/// What the surrounding program observed for the last action.
#[derive(Debug)]
pub enum ExecEvent {
    Completed,
    Failed,
    Exists { exists: bool },
    TempDirCreated { path: String },
    TempCopied { temp: String },
    Probed { info: Option<MediaInfo> },
    ToolExit { success: bool, status: i32 },
    ToolNotFound,
    SizeIs { bytes: u64 },
}

/// Where the machine stands.
#[derive(Debug)]
pub enum ExecState {
    CreatingParentDir,
    CheckingDest,
    SearchingBackup { index: u64 },
    RotatingBackup,
    RemovingForRename,
    Renaming,
    RemovingForCopy,
    CopyingToTemp,
    Persisting { temp: String },
    CreatingTempDir,
    Probing { temp_dir: String },
    RunningMagick { temp_dir: String, legacy: bool },
    RunningFfmpeg { temp_dir: String },
    RunningOffice { temp_dir: String },
    CheckingOfficeTarget { temp_dir: String },
    RemovingOfficeTarget { temp_dir: String },
    MovingOffice { temp_dir: String },
    CheckingSize { temp_dir: String },
    RemovingForFinalize { temp_dir: String },
    Finalizing,
    DeletingSource,
    Done { result: Result<(), ExecError> },
}

/// Spec-level mirror of an action, over character sequences.
pub enum ActionV {
    CreateParentDir { dir: Seq<char> },
    CheckExists { path: Seq<char> },
    RotateBackup { from: Seq<char>, to: Seq<char> },
    RemoveFile { path: Seq<char> },
    RenameFile { from: Seq<char>, to: Seq<char> },
    CopyViaTemp { source: Seq<char>, dest_dir: Seq<char> },
    PersistTemp { temp: Seq<char>, dest: Seq<char> },
    CreateTempDir { parent: Seq<char> },
    Probe { source: Seq<char> },
    RunTool { tool: Backend, binary: Seq<char>, args: Seq<Seq<char>> },
    CheckFileSize { path: Seq<char> },
    DeleteSource { path: Seq<char> },
    Finish { result: Result<(), ExecError> },
}

/// Spec: the view of an action.
pub open spec fn action_view(a: ExecAction) -> ActionV {
    match a {
        ExecAction::CreateParentDir { dir } => ActionV::CreateParentDir { dir: dir@ },
        ExecAction::CheckExists { path } => ActionV::CheckExists { path: path@ },
        ExecAction::RotateBackup { from, to } => ActionV::RotateBackup { from: from@, to: to@ },
        ExecAction::RemoveFile { path } => ActionV::RemoveFile { path: path@ },
        ExecAction::RenameFile { from, to } => ActionV::RenameFile { from: from@, to: to@ },
        ExecAction::CopyViaTemp { source, dest_dir } => ActionV::CopyViaTemp {
            source: source@,
            dest_dir: dest_dir@,
        },
        ExecAction::PersistTemp { temp, dest } => ActionV::PersistTemp { temp: temp@, dest: dest@ },
        ExecAction::CreateTempDir { parent } => ActionV::CreateTempDir { parent: parent@ },
        ExecAction::Probe { source } => ActionV::Probe { source: source@ },
        ExecAction::RunTool { tool, binary, args } => ActionV::RunTool {
            tool,
            binary: binary@,
            args: seq_views(args@),
        },
        ExecAction::CheckFileSize { path } => ActionV::CheckFileSize { path: path@ },
        ExecAction::DeleteSource { path } => ActionV::DeleteSource { path: path@ },
        ExecAction::Finish { result } => ActionV::Finish { result },
    }
}

/// The executor: one plan, stepped from action to action by the events the
/// surrounding program reports.
pub struct Executor {
    pub plan: Plan,
    pub overwrite: bool,
    pub dest_exists: bool,
    pub state: ExecState,
}

// ---------------------------------------------------------------------------
// The transition function
// ---------------------------------------------------------------------------

/// Spec: the machine with another state.
pub open spec fn with_state(m: Executor, s: ExecState) -> Executor {
    Executor { state: s, ..m }
}

/// Spec: the machine with another state and destination-exists flag.
pub open spec fn with_state_exists(m: Executor, s: ExecState, dest_exists: bool) -> Executor {
    Executor { state: s, dest_exists, ..m }
}

/// Spec: a terminal transition.
pub open spec fn finish_spec(m: Executor, result: Result<(), ExecError>) -> (Executor, ActionV) {
    (with_state(m, ExecState::Done { result }), ActionV::Finish { result })
}

/// Spec: the first action of each strategy, once the preconditions are
/// settled: remove-then-rename, remove-then-staged-copy, or a temp
/// directory for the conversion.
pub open spec fn dispatch_spec(m: Executor) -> (Executor, ActionV) {
    let src = m.plan.source@;
    let dest = m.plan.destination@;
    match m.plan.strategy {
        Strategy::RenameOnly => if m.overwrite && m.dest_exists {
            (with_state(m, ExecState::RemovingForRename), ActionV::RemoveFile { path: dest })
        } else {
            (with_state(m, ExecState::Renaming), ActionV::RenameFile { from: src, to: dest })
        },
        Strategy::CopyOnly => if m.overwrite && m.dest_exists {
            (with_state(m, ExecState::RemovingForCopy), ActionV::RemoveFile { path: dest })
        } else {
            (
                with_state(m, ExecState::CopyingToTemp),
                ActionV::CopyViaTemp { source: src, dest_dir: parent_dir_spec(dest) },
            )
        },
        Strategy::Convert => if m.plan.backend is None {
            finish_spec(m, Err(ExecError::NoBackend))
        } else {
            (
                with_state(m, ExecState::CreatingTempDir),
                ActionV::CreateTempDir { parent: parent_dir_spec(dest) },
            )
        },
    }
}

/// Spec: the backend invocation issued once the temp directory exists.
pub open spec fn tool_dispatch_spec(m: Executor, temp_dir: String) -> (Executor, ActionV) {
    let src = m.plan.source@;
    let dest = m.plan.destination@;
    let temp_out = temp_output_spec(temp_dir@, dest);
    match m.plan.backend {
        Some(Backend::ImageMagick) => (
            with_state(m, ExecState::RunningMagick { temp_dir, legacy: false }),
            ActionV::RunTool {
                tool: Backend::ImageMagick,
                binary: "magick"@,
                args: imagemagick_args_spec(src, temp_out, m.plan.options),
            },
        ),
        Some(Backend::Ffmpeg) => (
            with_state(m, ExecState::Probing { temp_dir }),
            ActionV::Probe { source: src },
        ),
        Some(Backend::LibreOffice) => if ext_of_spec(dest) == Some("pdf"@) {
            (
                with_state(m, ExecState::RunningOffice { temp_dir }),
                ActionV::RunTool {
                    tool: Backend::LibreOffice,
                    binary: "soffice"@,
                    args: libreoffice_args_spec(src, temp_dir@),
                },
            )
        } else {
            finish_spec(m, Err(ExecError::UnsupportedOfficeOutput))
        },
        None => finish_spec(m, Err(ExecError::NoBackend)),
    }
}

/// Spec: the transition after a verified non-empty staged output: remove an
/// existing destination when overwriting, else finalize at once.
pub open spec fn finalize_dispatch_spec(m: Executor, temp_dir: String) -> (Executor, ActionV) {
    let dest = m.plan.destination@;
    let temp_out = temp_output_spec(temp_dir@, dest);
    if m.overwrite && m.dest_exists {
        (
            with_state(m, ExecState::RemovingForFinalize { temp_dir }),
            ActionV::RemoveFile { path: dest },
        )
    } else {
        (with_state(m, ExecState::Finalizing), ActionV::RenameFile { from: temp_out, to: dest })
    }
}

/// Spec: the whole transition table of the executor.
pub open spec fn step_spec(m: Executor, ev: ExecEvent) -> (Executor, ActionV) {
    let src = m.plan.source@;
    let dest = m.plan.destination@;
    match m.state {
        ExecState::CreatingParentDir => match ev {
            ExecEvent::Completed => (
                with_state(m, ExecState::CheckingDest),
                ActionV::CheckExists { path: dest },
            ),
            ExecEvent::Failed => finish_spec(m, Err(ExecError::CreateDirFailed)),
            _ => finish_spec(m, Err(ExecError::UnexpectedEvent)),
        },
        ExecState::CheckingDest => match ev {
            ExecEvent::Exists { exists } => if exists {
                if m.plan.backup {
                    (
                        with_state_exists(m, ExecState::SearchingBackup { index: 0 }, true),
                        ActionV::CheckExists { path: backup_candidate_spec(dest, 0) },
                    )
                } else if !m.overwrite {
                    finish_spec(
                        with_state_exists(m, m.state, true),
                        Err(ExecError::DestinationExists),
                    )
                } else {
                    dispatch_spec(with_state_exists(m, m.state, true))
                }
            } else {
                dispatch_spec(with_state_exists(m, m.state, false))
            },
            _ => finish_spec(m, Err(ExecError::UnexpectedEvent)),
        },
        ExecState::SearchingBackup { index } => match ev {
            ExecEvent::Exists { exists } => if exists {
                if index >= 1000 {
                    finish_spec(m, Err(ExecError::BackupExhausted))
                } else {
                    (
                        with_state(m, ExecState::SearchingBackup { index: (index + 1) as u64 }),
                        ActionV::CheckExists { path: backup_candidate_spec(dest, (index + 1) as u64) },
                    )
                }
            } else {
                (
                    with_state(m, ExecState::RotatingBackup),
                    ActionV::RotateBackup { from: dest, to: backup_candidate_spec(dest, index) },
                )
            },
            _ => finish_spec(m, Err(ExecError::UnexpectedEvent)),
        },
        ExecState::RotatingBackup => match ev {
            ExecEvent::Completed => dispatch_spec(with_state_exists(m, m.state, false)),
            ExecEvent::Failed => finish_spec(m, Err(ExecError::BackupFailed)),
            _ => finish_spec(m, Err(ExecError::UnexpectedEvent)),
        },
        ExecState::RemovingForRename => match ev {
            ExecEvent::Completed => (
                with_state(m, ExecState::Renaming),
                ActionV::RenameFile { from: src, to: dest },
            ),
            ExecEvent::Failed => finish_spec(m, Err(ExecError::RemoveFailed)),
            _ => finish_spec(m, Err(ExecError::UnexpectedEvent)),
        },
        ExecState::Renaming => match ev {
            ExecEvent::Completed => finish_spec(m, Ok(())),
            ExecEvent::Failed => finish_spec(m, Err(ExecError::RenameFailed)),
            _ => finish_spec(m, Err(ExecError::UnexpectedEvent)),
        },
        ExecState::RemovingForCopy => match ev {
            ExecEvent::Completed => (
                with_state(m, ExecState::CopyingToTemp),
                ActionV::CopyViaTemp { source: src, dest_dir: parent_dir_spec(dest) },
            ),
            ExecEvent::Failed => finish_spec(m, Err(ExecError::RemoveFailed)),
            _ => finish_spec(m, Err(ExecError::UnexpectedEvent)),
        },
        ExecState::CopyingToTemp => match ev {
            ExecEvent::TempCopied { temp } => (
                with_state(m, ExecState::Persisting { temp }),
                ActionV::PersistTemp { temp: temp@, dest },
            ),
            ExecEvent::Failed => finish_spec(m, Err(ExecError::CopyFailed)),
            _ => finish_spec(m, Err(ExecError::UnexpectedEvent)),
        },
        ExecState::Persisting { temp } => match ev {
            ExecEvent::Completed => finish_spec(m, Ok(())),
            ExecEvent::Failed => finish_spec(m, Err(ExecError::FinalizeFailed)),
            _ => finish_spec(m, Err(ExecError::UnexpectedEvent)),
        },
        ExecState::CreatingTempDir => match ev {
            ExecEvent::TempDirCreated { path } => tool_dispatch_spec(m, path),
            ExecEvent::Failed => finish_spec(m, Err(ExecError::TempDirFailed)),
            _ => finish_spec(m, Err(ExecError::UnexpectedEvent)),
        },
        ExecState::Probing { temp_dir } => match ev {
            ExecEvent::Probed { info } => (
                with_state(m, ExecState::RunningFfmpeg { temp_dir }),
                ActionV::RunTool {
                    tool: Backend::Ffmpeg,
                    binary: "ffmpeg"@,
                    args: ffmpeg_args_spec(
                        src,
                        temp_output_spec(temp_dir@, dest),
                        m.plan.options,
                        m.plan.dest_kind,
                        os_view(m.plan.dest_ext),
                        decide_ffmpeg_mode_spec(m.plan, info),
                    ),
                },
            ),
            _ => finish_spec(m, Err(ExecError::UnexpectedEvent)),
        },
        ExecState::RunningMagick { temp_dir, legacy } => match ev {
            ExecEvent::ToolExit { success, status } => if success {
                (
                    with_state(m, ExecState::CheckingSize { temp_dir }),
                    ActionV::CheckFileSize { path: temp_output_spec(temp_dir@, dest) },
                )
            } else {
                finish_spec(
                    m,
                    Err(ExecError::ToolFailed { tool: Backend::ImageMagick, status }),
                )
            },
            ExecEvent::ToolNotFound => if !legacy {
                (
                    with_state(m, ExecState::RunningMagick { temp_dir, legacy: true }),
                    ActionV::RunTool {
                        tool: Backend::ImageMagick,
                        binary: "convert"@,
                        args: imagemagick_basic_args_spec(
                            src,
                            temp_output_spec(temp_dir@, dest),
                            m.plan.options,
                        ),
                    },
                )
            } else {
                finish_spec(m, Err(ExecError::ToolMissing { tool: Backend::ImageMagick }))
            },
            _ => finish_spec(m, Err(ExecError::UnexpectedEvent)),
        },
        ExecState::RunningFfmpeg { temp_dir } => match ev {
            ExecEvent::ToolExit { success, status } => if success {
                (
                    with_state(m, ExecState::CheckingSize { temp_dir }),
                    ActionV::CheckFileSize { path: temp_output_spec(temp_dir@, dest) },
                )
            } else {
                finish_spec(m, Err(ExecError::ToolFailed { tool: Backend::Ffmpeg, status }))
            },
            ExecEvent::ToolNotFound => finish_spec(
                m,
                Err(ExecError::ToolMissing { tool: Backend::Ffmpeg }),
            ),
            _ => finish_spec(m, Err(ExecError::UnexpectedEvent)),
        },
        ExecState::RunningOffice { temp_dir } => match ev {
            ExecEvent::ToolExit { success, status } => if success {
                if office_artifact_spec(temp_dir@, src) == temp_output_spec(temp_dir@, dest) {
                    (
                        with_state(m, ExecState::CheckingSize { temp_dir }),
                        ActionV::CheckFileSize { path: temp_output_spec(temp_dir@, dest) },
                    )
                } else {
                    (
                        with_state(m, ExecState::CheckingOfficeTarget { temp_dir }),
                        ActionV::CheckExists { path: temp_output_spec(temp_dir@, dest) },
                    )
                }
            } else {
                finish_spec(m, Err(ExecError::ToolFailed { tool: Backend::LibreOffice, status }))
            },
            ExecEvent::ToolNotFound => finish_spec(
                m,
                Err(ExecError::ToolMissing { tool: Backend::LibreOffice }),
            ),
            _ => finish_spec(m, Err(ExecError::UnexpectedEvent)),
        },
        ExecState::CheckingOfficeTarget { temp_dir } => match ev {
            ExecEvent::Exists { exists } => if exists {
                (
                    with_state(m, ExecState::RemovingOfficeTarget { temp_dir }),
                    ActionV::RemoveFile { path: temp_output_spec(temp_dir@, dest) },
                )
            } else {
                (
                    with_state(m, ExecState::MovingOffice { temp_dir }),
                    ActionV::RenameFile {
                        from: office_artifact_spec(temp_dir@, src),
                        to: temp_output_spec(temp_dir@, dest),
                    },
                )
            },
            _ => finish_spec(m, Err(ExecError::UnexpectedEvent)),
        },
        ExecState::RemovingOfficeTarget { temp_dir } => match ev {
            ExecEvent::Completed => (
                with_state(m, ExecState::MovingOffice { temp_dir }),
                ActionV::RenameFile {
                    from: office_artifact_spec(temp_dir@, src),
                    to: temp_output_spec(temp_dir@, dest),
                },
            ),
            ExecEvent::Failed => finish_spec(m, Err(ExecError::RemoveFailed)),
            _ => finish_spec(m, Err(ExecError::UnexpectedEvent)),
        },
        ExecState::MovingOffice { temp_dir } => match ev {
            ExecEvent::Completed => (
                with_state(m, ExecState::CheckingSize { temp_dir }),
                ActionV::CheckFileSize { path: temp_output_spec(temp_dir@, dest) },
            ),
            ExecEvent::Failed => finish_spec(m, Err(ExecError::OfficeFinalizeFailed)),
            _ => finish_spec(m, Err(ExecError::UnexpectedEvent)),
        },
        ExecState::CheckingSize { temp_dir } => match ev {
            ExecEvent::SizeIs { bytes } => if bytes == 0 {
                finish_spec(m, Err(ExecError::OutputEmpty))
            } else {
                finalize_dispatch_spec(m, temp_dir)
            },
            ExecEvent::Failed => finish_spec(m, Err(ExecError::OutputStatFailed)),
            _ => finish_spec(m, Err(ExecError::UnexpectedEvent)),
        },
        ExecState::RemovingForFinalize { temp_dir } => match ev {
            ExecEvent::Completed => (
                with_state(m, ExecState::Finalizing),
                ActionV::RenameFile { from: temp_output_spec(temp_dir@, dest), to: dest },
            ),
            ExecEvent::Failed => finish_spec(m, Err(ExecError::RemoveFailed)),
            _ => finish_spec(m, Err(ExecError::UnexpectedEvent)),
        },
        ExecState::Finalizing => match ev {
            ExecEvent::Completed => if m.plan.move_source {
                (
                    with_state(m, ExecState::DeletingSource),
                    ActionV::DeleteSource { path: src },
                )
            } else {
                finish_spec(m, Ok(()))
            },
            ExecEvent::Failed => finish_spec(m, Err(ExecError::FinalizeFailed)),
            _ => finish_spec(m, Err(ExecError::UnexpectedEvent)),
        },
        ExecState::DeletingSource => match ev {
            ExecEvent::Completed => finish_spec(m, Ok(())),
            ExecEvent::Failed => finish_spec(m, Err(ExecError::SourceRemoveFailed)),
            _ => finish_spec(m, Err(ExecError::UnexpectedEvent)),
        },
        ExecState::Done { result } => (
            with_state(m, ExecState::Done { result }),
            ActionV::Finish { result },
        ),
    }
}

impl Executor {
    /// Starts executing a plan: the first action creates the destination's
    /// parent directory tree.
    pub fn start(plan: Plan, overwrite: bool) -> (r: (Executor, ExecAction))
        ensures
            r.0.plan == plan,
            r.0.overwrite == overwrite,
            r.0.dest_exists == false,
            r.0.state is CreatingParentDir,
            action_view(r.1) == (ActionV::CreateParentDir {
                dir: parent_dir_spec(plan.destination@),
            }),
    {
        let dir = parent_dir_of(plan.destination.as_str());
        let m = Executor { plan, overwrite, dest_exists: false, state: ExecState::CreatingParentDir };
        (m, ExecAction::CreateParentDir { dir })
    }

    /// Feeds the machine what the last action observed and returns the next
    /// action, exactly as the transition table says.
    pub fn step(&mut self, ev: ExecEvent) -> (r: ExecAction)
        ensures
            *final(self) == step_spec(*old(self), ev).0,
            action_view(r) == step_spec(*old(self), ev).1,
    {
        let ghost m0 = *self;
        let mut st = ExecState::Done { result: Err(ExecError::UnexpectedEvent) };
        core::mem::swap(&mut st, &mut self.state);
        match (st, ev) {
            (ExecState::CreatingParentDir, ExecEvent::Completed) => {
                self.state = ExecState::CheckingDest;
                ExecAction::CheckExists { path: self.plan.destination.clone() }
            },
            (ExecState::CreatingParentDir, ExecEvent::Failed) => self.finish(
                Err(ExecError::CreateDirFailed),
            ),
            (ExecState::CheckingDest, ExecEvent::Exists { exists }) => {
                self.dest_exists = exists;
                if exists {
                    if self.plan.backup {
                        self.state = ExecState::SearchingBackup { index: 0 };
                        ExecAction::CheckExists {
                            path: backup_candidate(self.plan.destination.as_str(), 0),
                        }
                    } else if !self.overwrite {
                        self.state = ExecState::CheckingDest;
                        self.finish(Err(ExecError::DestinationExists))
                    } else {
                        self.state = ExecState::CheckingDest;
                        self.dispatch()
                    }
                } else {
                    self.state = ExecState::CheckingDest;
                    self.dispatch()
                }
            },
            (ExecState::SearchingBackup { index }, ExecEvent::Exists { exists }) => {
                if exists {
                    if index >= 1000 {
                        self.state = ExecState::SearchingBackup { index };
                        self.finish(Err(ExecError::BackupExhausted))
                    } else {
                        self.state = ExecState::SearchingBackup { index: index + 1 };
                        ExecAction::CheckExists {
                            path: backup_candidate(self.plan.destination.as_str(), index + 1),
                        }
                    }
                } else {
                    self.state = ExecState::RotatingBackup;
                    ExecAction::RotateBackup {
                        from: self.plan.destination.clone(),
                        to: backup_candidate(self.plan.destination.as_str(), index),
                    }
                }
            },
            (ExecState::RotatingBackup, ExecEvent::Completed) => {
                self.dest_exists = false;
                self.state = ExecState::RotatingBackup;
                self.dispatch()
            },
            (ExecState::RotatingBackup, ExecEvent::Failed) => self.finish(
                Err(ExecError::BackupFailed),
            ),
            (ExecState::RemovingForRename, ExecEvent::Completed) => {
                self.state = ExecState::Renaming;
                ExecAction::RenameFile {
                    from: self.plan.source.clone(),
                    to: self.plan.destination.clone(),
                }
            },
            (ExecState::RemovingForRename, ExecEvent::Failed) => self.finish(
                Err(ExecError::RemoveFailed),
            ),
            (ExecState::Renaming, ExecEvent::Completed) => self.finish(Ok(())),
            (ExecState::Renaming, ExecEvent::Failed) => self.finish(Err(ExecError::RenameFailed)),
            (ExecState::RemovingForCopy, ExecEvent::Completed) => {
                self.state = ExecState::CopyingToTemp;
                ExecAction::CopyViaTemp {
                    source: self.plan.source.clone(),
                    dest_dir: parent_dir_of(self.plan.destination.as_str()),
                }
            },
            (ExecState::RemovingForCopy, ExecEvent::Failed) => self.finish(
                Err(ExecError::RemoveFailed),
            ),
            (ExecState::CopyingToTemp, ExecEvent::TempCopied { temp }) => {
                let action = ExecAction::PersistTemp {
                    temp: temp.clone(),
                    dest: self.plan.destination.clone(),
                };
                self.state = ExecState::Persisting { temp };
                action
            },
            (ExecState::CopyingToTemp, ExecEvent::Failed) => self.finish(Err(ExecError::CopyFailed)),
            (ExecState::Persisting { temp: _ }, ExecEvent::Completed) => self.finish(Ok(())),
            (ExecState::Persisting { temp: _ }, ExecEvent::Failed) => self.finish(
                Err(ExecError::FinalizeFailed),
            ),
            (ExecState::CreatingTempDir, ExecEvent::TempDirCreated { path }) => self.tool_dispatch(
                path,
            ),
            (ExecState::CreatingTempDir, ExecEvent::Failed) => self.finish(
                Err(ExecError::TempDirFailed),
            ),
            (ExecState::Probing { temp_dir }, ExecEvent::Probed { info }) => {
                let temp_out = temp_output_path(temp_dir.as_str(), self.plan.destination.as_str());
                let mode = decide_ffmpeg_mode(
                    &self.plan,
                    match &info {
                        Some(i) => Some(i),
                        None => None,
                    },
                );
                let dest_ext = match &self.plan.dest_ext {
                    Some(e) => Some(e.as_str()),
                    None => None,
                };
                let args = ffmpeg_args(
                    self.plan.source.as_str(),
                    temp_out.as_str(),
                    &self.plan.options,
                    self.plan.dest_kind,
                    dest_ext,
                    mode,
                );
                self.state = ExecState::RunningFfmpeg { temp_dir };
                ExecAction::RunTool {
                    tool: Backend::Ffmpeg,
                    binary: String::from_str("ffmpeg"),
                    args,
                }
            },
            (ExecState::RunningMagick { temp_dir, legacy }, ExecEvent::ToolExit { success, status }) => {
                if success {
                    let temp_out = temp_output_path(
                        temp_dir.as_str(),
                        self.plan.destination.as_str(),
                    );
                    self.state = ExecState::CheckingSize { temp_dir };
                    ExecAction::CheckFileSize { path: temp_out }
                } else {
                    self.state = ExecState::RunningMagick { temp_dir, legacy };
                    self.finish(Err(ExecError::ToolFailed { tool: Backend::ImageMagick, status }))
                }
            },
            (ExecState::RunningMagick { temp_dir, legacy }, ExecEvent::ToolNotFound) => {
                if !legacy {
                    let temp_out = temp_output_path(
                        temp_dir.as_str(),
                        self.plan.destination.as_str(),
                    );
                    let args = imagemagick_basic_args(
                        self.plan.source.as_str(),
                        temp_out.as_str(),
                        &self.plan.options,
                    );
                    self.state = ExecState::RunningMagick { temp_dir, legacy: true };
                    ExecAction::RunTool {
                        tool: Backend::ImageMagick,
                        binary: String::from_str("convert"),
                        args,
                    }
                } else {
                    self.state = ExecState::RunningMagick { temp_dir, legacy };
                    self.finish(Err(ExecError::ToolMissing { tool: Backend::ImageMagick }))
                }
            },
            (ExecState::RunningFfmpeg { temp_dir }, ExecEvent::ToolExit { success, status }) => {
                if success {
                    let temp_out = temp_output_path(
                        temp_dir.as_str(),
                        self.plan.destination.as_str(),
                    );
                    self.state = ExecState::CheckingSize { temp_dir };
                    ExecAction::CheckFileSize { path: temp_out }
                } else {
                    self.state = ExecState::RunningFfmpeg { temp_dir };
                    self.finish(Err(ExecError::ToolFailed { tool: Backend::Ffmpeg, status }))
                }
            },
            (ExecState::RunningFfmpeg { temp_dir }, ExecEvent::ToolNotFound) => {
                self.state = ExecState::RunningFfmpeg { temp_dir };
                self.finish(Err(ExecError::ToolMissing { tool: Backend::Ffmpeg }))
            },
            (ExecState::RunningOffice { temp_dir }, ExecEvent::ToolExit { success, status }) => {
                if success {
                    let temp_out = temp_output_path(
                        temp_dir.as_str(),
                        self.plan.destination.as_str(),
                    );
                    let artifact = office_artifact_path(temp_dir.as_str(), self.plan.source.as_str());
                    if str_eq(artifact.as_str(), temp_out.as_str()) {
                        self.state = ExecState::CheckingSize { temp_dir };
                        ExecAction::CheckFileSize { path: temp_out }
                    } else {
                        self.state = ExecState::CheckingOfficeTarget { temp_dir };
                        ExecAction::CheckExists { path: temp_out }
                    }
                } else {
                    self.state = ExecState::RunningOffice { temp_dir };
                    self.finish(Err(ExecError::ToolFailed { tool: Backend::LibreOffice, status }))
                }
            },
            (ExecState::RunningOffice { temp_dir }, ExecEvent::ToolNotFound) => {
                self.state = ExecState::RunningOffice { temp_dir };
                self.finish(Err(ExecError::ToolMissing { tool: Backend::LibreOffice }))
            },
            (ExecState::CheckingOfficeTarget { temp_dir }, ExecEvent::Exists { exists }) => {
                let temp_out = temp_output_path(temp_dir.as_str(), self.plan.destination.as_str());
                if exists {
                    self.state = ExecState::RemovingOfficeTarget { temp_dir };
                    ExecAction::RemoveFile { path: temp_out }
                } else {
                    let artifact = office_artifact_path(temp_dir.as_str(), self.plan.source.as_str());
                    self.state = ExecState::MovingOffice { temp_dir };
                    ExecAction::RenameFile { from: artifact, to: temp_out }
                }
            },
            (ExecState::RemovingOfficeTarget { temp_dir }, ExecEvent::Completed) => {
                let temp_out = temp_output_path(temp_dir.as_str(), self.plan.destination.as_str());
                let artifact = office_artifact_path(temp_dir.as_str(), self.plan.source.as_str());
                self.state = ExecState::MovingOffice { temp_dir };
                ExecAction::RenameFile { from: artifact, to: temp_out }
            },
            (ExecState::RemovingOfficeTarget { temp_dir }, ExecEvent::Failed) => {
                self.state = ExecState::RemovingOfficeTarget { temp_dir };
                self.finish(Err(ExecError::RemoveFailed))
            },
            (ExecState::MovingOffice { temp_dir }, ExecEvent::Completed) => {
                let temp_out = temp_output_path(temp_dir.as_str(), self.plan.destination.as_str());
                self.state = ExecState::CheckingSize { temp_dir };
                ExecAction::CheckFileSize { path: temp_out }
            },
            (ExecState::MovingOffice { temp_dir }, ExecEvent::Failed) => {
                self.state = ExecState::MovingOffice { temp_dir };
                self.finish(Err(ExecError::OfficeFinalizeFailed))
            },
            (ExecState::CheckingSize { temp_dir }, ExecEvent::SizeIs { bytes }) => {
                if bytes == 0 {
                    self.state = ExecState::CheckingSize { temp_dir };
                    self.finish(Err(ExecError::OutputEmpty))
                } else {
                    if self.overwrite && self.dest_exists {
                        self.state = ExecState::RemovingForFinalize { temp_dir };
                        ExecAction::RemoveFile { path: self.plan.destination.clone() }
                    } else {
                        let temp_out = temp_output_path(
                            temp_dir.as_str(),
                            self.plan.destination.as_str(),
                        );
                        self.state = ExecState::Finalizing;
                        ExecAction::RenameFile {
                            from: temp_out,
                            to: self.plan.destination.clone(),
                        }
                    }
                }
            },
            (ExecState::CheckingSize { temp_dir }, ExecEvent::Failed) => {
                self.state = ExecState::CheckingSize { temp_dir };
                self.finish(Err(ExecError::OutputStatFailed))
            },
            (ExecState::RemovingForFinalize { temp_dir }, ExecEvent::Completed) => {
                let temp_out = temp_output_path(temp_dir.as_str(), self.plan.destination.as_str());
                self.state = ExecState::Finalizing;
                ExecAction::RenameFile { from: temp_out, to: self.plan.destination.clone() }
            },
            (ExecState::RemovingForFinalize { temp_dir }, ExecEvent::Failed) => {
                self.state = ExecState::RemovingForFinalize { temp_dir };
                self.finish(Err(ExecError::RemoveFailed))
            },
            (ExecState::Finalizing, ExecEvent::Completed) => {
                if self.plan.move_source {
                    self.state = ExecState::DeletingSource;
                    ExecAction::DeleteSource { path: self.plan.source.clone() }
                } else {
                    self.state = ExecState::Finalizing;
                    self.finish(Ok(()))
                }
            },
            (ExecState::Finalizing, ExecEvent::Failed) => {
                self.state = ExecState::Finalizing;
                self.finish(Err(ExecError::FinalizeFailed))
            },
            (ExecState::DeletingSource, ExecEvent::Completed) => {
                self.state = ExecState::DeletingSource;
                self.finish(Ok(()))
            },
            (ExecState::DeletingSource, ExecEvent::Failed) => {
                self.state = ExecState::DeletingSource;
                self.finish(Err(ExecError::SourceRemoveFailed))
            },
            (ExecState::Done { result }, _) => {
                self.state = ExecState::Done { result };
                ExecAction::Finish { result }
            },
            (_, _) => self.finish(Err(ExecError::UnexpectedEvent)),
        }
    }

    /// Ends the run with the given result.
    fn finish(&mut self, result: Result<(), ExecError>) -> (r: ExecAction)
        ensures
            *final(self) == (Executor { state: ExecState::Done { result }, ..*old(self) }),
            action_view(r) == (ActionV::Finish { result }),
    {
        self.state = ExecState::Done { result };
        ExecAction::Finish { result }
    }

    /// Issues the first strategy action once the preconditions are settled.
    fn dispatch(&mut self) -> (r: ExecAction)
        ensures
            *final(self) == dispatch_spec(*old(self)).0,
            action_view(r) == dispatch_spec(*old(self)).1,
    {
        match self.plan.strategy {
            Strategy::RenameOnly => {
                if self.overwrite && self.dest_exists {
                    self.state = ExecState::RemovingForRename;
                    ExecAction::RemoveFile { path: self.plan.destination.clone() }
                } else {
                    self.state = ExecState::Renaming;
                    ExecAction::RenameFile {
                        from: self.plan.source.clone(),
                        to: self.plan.destination.clone(),
                    }
                }
            },
            Strategy::CopyOnly => {
                if self.overwrite && self.dest_exists {
                    self.state = ExecState::RemovingForCopy;
                    ExecAction::RemoveFile { path: self.plan.destination.clone() }
                } else {
                    self.state = ExecState::CopyingToTemp;
                    ExecAction::CopyViaTemp {
                        source: self.plan.source.clone(),
                        dest_dir: parent_dir_of(self.plan.destination.as_str()),
                    }
                }
            },
            Strategy::Convert => {
                if self.plan.backend.is_none() {
                    self.finish(Err(ExecError::NoBackend))
                } else {
                    self.state = ExecState::CreatingTempDir;
                    ExecAction::CreateTempDir {
                        parent: parent_dir_of(self.plan.destination.as_str()),
                    }
                }
            },
        }
    }

    /// Issues the backend invocation once the temp directory exists.
    fn tool_dispatch(&mut self, temp_dir: String) -> (r: ExecAction)
        ensures
            *final(self) == tool_dispatch_spec(*old(self), temp_dir).0,
            action_view(r) == tool_dispatch_spec(*old(self), temp_dir).1,
    {
        let temp_out = temp_output_path(temp_dir.as_str(), self.plan.destination.as_str());
        match self.plan.backend {
            Some(Backend::ImageMagick) => {
                let args = imagemagick_args(
                    self.plan.source.as_str(),
                    temp_out.as_str(),
                    &self.plan.options,
                );
                self.state = ExecState::RunningMagick { temp_dir, legacy: false };
                ExecAction::RunTool {
                    tool: Backend::ImageMagick,
                    binary: String::from_str("magick"),
                    args,
                }
            },
            Some(Backend::Ffmpeg) => {
                let action = ExecAction::Probe { source: self.plan.source.clone() };
                self.state = ExecState::Probing { temp_dir };
                action
            },
            Some(Backend::LibreOffice) => {
                let dest_is_pdf = match extension_of(self.plan.destination.as_str()) {
                    Some(e) => str_eq(e, "pdf"),
                    None => false,
                };
                if dest_is_pdf {
                    let args = libreoffice_args(self.plan.source.as_str(), temp_dir.as_str());
                    self.state = ExecState::RunningOffice { temp_dir };
                    ExecAction::RunTool {
                        tool: Backend::LibreOffice,
                        binary: String::from_str("soffice"),
                        args,
                    }
                } else {
                    self.finish(Err(ExecError::UnsupportedOfficeOutput))
                }
            },
            None => self.finish(Err(ExecError::NoBackend)),
        }
    }
}

// ---------------------------------------------------------------------------
// Laws
// ---------------------------------------------------------------------------

/// Spec: the states a copy-only run can be in.
pub open spec fn copy_path_state(s: ExecState) -> bool {
    ||| s is CreatingParentDir
    ||| s is CheckingDest
    ||| s is SearchingBackup
    ||| s is RotatingBackup
    ||| s is RemovingForCopy
    ||| s is CopyingToTemp
    ||| s is Persisting
    ||| s is Done
}

/// Law: a copy-only run never touches the source file. From any state such
/// a run can reach, every action the machine issues leaves the source
/// alone: nothing is deleted or renamed, and the only removals name the
/// destination; the source is only ever read, by the staged copy. The next
/// state stays on the copy path, so this holds along the whole run.
pub proof fn lemma_copy_only_keeps_source(m: Executor, ev: ExecEvent)
    requires
        m.plan.strategy == Strategy::CopyOnly,
        copy_path_state(m.state),
    ensures
        copy_path_state(step_spec(m, ev).0.state),
        !(step_spec(m, ev).1 is DeleteSource),
        !(step_spec(m, ev).1 is RenameFile),
        step_spec(m, ev).1 matches ActionV::RemoveFile { path } ==> path == m.plan.destination@,
        step_spec(m, ev).1 matches ActionV::RotateBackup { from, to } ==> from
            == m.plan.destination@,
        step_spec(m, ev).1 matches ActionV::CopyViaTemp { source, dest_dir } ==> source
            == m.plan.source@,
{
}

/// Law: the machine orders a source deletion only on the step where the
/// atomic finalize has just succeeded, and only for a converting plan that
/// was asked to move its source. Everything else — each precondition,
/// the backend run, the non-empty check and the finalize itself — lies
/// strictly before it, so the source survives any earlier failure.
pub proof fn lemma_source_deleted_only_after_finalize(m: Executor, ev: ExecEvent)
    requires
        step_spec(m, ev).1 is DeleteSource,
    ensures
        m.state is Finalizing,
        ev is Completed,
        m.plan.move_source,
        step_spec(m, ev).1 matches ActionV::DeleteSource { path } ==> path == m.plan.source@,
        step_spec(m, ev).0.state is DeletingSource,
{
}

/// Law: the machine reports exactly one terminal result: once it is done,
/// every further step repeats the same finished result and changes nothing.
pub proof fn lemma_done_is_terminal(m: Executor, ev: ExecEvent)
    requires
        m.state is Done,
    ensures
        step_spec(m, ev).0 == m,
        step_spec(m, ev).1 == (ActionV::Finish {
            result: m.state->Done_result,
        }),
{
    assert(step_spec(m, ev).0 =~= m);
}

} // verus!
