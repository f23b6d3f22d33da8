//! What a run of an external program amounted to.
//!
//! The host starts the programs; this module classifies what came back. A
//! program that ran and failed is an ordinary result that carries a
//! diagnostic. A tool that was not found, and a program that could not be
//! started, are hard errors.

use crate::text::{decode_lossy, join, lossy_text};
use vstd::prelude::*;
use vstd::string::StringExecFns;

verus! {

/// A program to run and the arguments to run it with.
#[derive(Debug, Clone, PartialEq, Eq)]
pub struct Invocation {
    pub program: String,
    pub args: Vec<String>,
}

/// Mathematical content of an [`Invocation`].
pub struct InvocationView {
    pub program: Seq<char>,
    pub args: Seq<Seq<char>>,
}

impl View for Invocation {
    type V = InvocationView;

    open spec fn view(&self) -> InvocationView {
        InvocationView { program: self.program@, args: self.args.deep_view() }
    }
}

/// What a process left behind when it ended.
#[derive(Debug, Clone, PartialEq, Eq)]
pub struct ProcessOutput {
    /// Whether the exit status reports success.
    pub success: bool,
    /// Everything written to standard output.
    pub stdout: Vec<u8>,
    /// Everything written to standard error.
    pub stderr: Vec<u8>,
}

/// Mathematical content of a [`ProcessOutput`].
pub struct ProcessOutputView {
    pub success: bool,
    pub stdout: Seq<u8>,
    pub stderr: Seq<u8>,
}

impl View for ProcessOutput {
    type V = ProcessOutputView;

    open spec fn view(&self) -> ProcessOutputView {
        ProcessOutputView { success: self.success, stdout: self.stdout@, stderr: self.stderr@ }
    }
}

/// The outcome of trying to run a program.
#[derive(Debug, Clone, PartialEq, Eq)]
pub enum ProcessOutcome {
    /// The program could not be started; the text says why.
    LaunchFailed(String),
    /// The program ran to its end.
    Exited(ProcessOutput),
}

/// Mathematical content of a [`ProcessOutcome`].
pub enum ProcessOutcomeView {
    LaunchFailed(Seq<char>),
    Exited(ProcessOutputView),
}

impl View for ProcessOutcome {
    type V = ProcessOutcomeView;

    open spec fn view(&self) -> ProcessOutcomeView {
        match self {
            ProcessOutcome::LaunchFailed(reason) => ProcessOutcomeView::LaunchFailed(reason@),
            ProcessOutcome::Exited(output) => ProcessOutcomeView::Exited(output@),
        }
    }
}

/// The outcome of trying to run one of the bundled tools: the tool is looked
/// up first and run only if it was found.
#[derive(Debug, Clone, PartialEq, Eq)]
pub enum ToolRun {
    /// The tool was not found; the text is the resolver's diagnostic.
    Unresolved(String),
    /// The tool was found and an attempt was made to run it.
    Ran(ProcessOutcome),
}

/// Mathematical content of a [`ToolRun`].
pub enum ToolRunView {
    Unresolved(Seq<char>),
    Ran(ProcessOutcomeView),
}

impl View for ToolRun {
    type V = ToolRunView;

    open spec fn view(&self) -> ToolRunView {
        match self {
            ToolRun::Unresolved(reason) => ToolRunView::Unresolved(reason@),
            ToolRun::Ran(outcome) => ToolRunView::Ran(outcome@),
        }
    }
}

/// Result of a clip request as reported to the user interface.
#[derive(Debug, Clone, PartialEq, Eq)]
pub struct DownloadResult {
    pub success: bool,
    /// Path of the file that was written; present on success only.
    pub file_path: Option<String>,
    /// Human-readable diagnostic; present on failure only.
    pub error: Option<String>,
}

/// Mathematical content of a [`DownloadResult`].
pub struct DownloadResultView {
    pub success: bool,
    pub file_path: Option<Seq<char>>,
    pub error: Option<Seq<char>>,
}

impl View for DownloadResult {
    type V = DownloadResultView;

    open spec fn view(&self) -> DownloadResultView {
        DownloadResultView {
            success: self.success,
            file_path: self.file_path.deep_view(),
            error: self.error.deep_view(),
        }
    }
}

impl DownloadResultView {
    /// Exactly one payload is present: the path on success, the diagnostic on
    /// failure.
    pub open spec fn well_formed(self) -> bool {
        if self.success {
            self.file_path is Some && self.error is None
        } else {
            self.file_path is None && self.error is Some
        }
    }

    /// The successful result for a file written at `path`.
    pub open spec fn succeeded(path: Seq<char>) -> DownloadResultView {
        DownloadResultView { success: true, file_path: Some(path), error: None }
    }

    /// The failed result with diagnostic `message`.
    pub open spec fn failed(message: Seq<char>) -> DownloadResultView {
        DownloadResultView { success: false, file_path: None, error: Some(message) }
    }
}

/// Mathematical content of what [`download_clip`] returns.
pub open spec fn download_view(result: Result<DownloadResult, String>) -> Result<
    DownloadResultView,
    Seq<char>,
> {
    match result {
        Ok(outcome) => Ok(outcome@),
        Err(message) => Err(message@),
    }
}

/// How a run of the downloader is reported.
///
/// A downloader that exits with a failure status is a failed result that
/// carries the decoded error stream. A downloader that was not found, and
/// one that could not be started, are hard errors; the first names the tool
/// and gives the resolver's reason. A downloader that exits with success
/// yields the output file.
pub open spec fn download_verdict(run: ToolRunView, output_file: Seq<char>) -> Result<
    DownloadResultView,
    Seq<char>,
> {
    match run {
        ToolRunView::Unresolved(reason) => Err("yt-dlp not found: "@ + reason),
        ToolRunView::Ran(ProcessOutcomeView::LaunchFailed(reason)) => Err(
            "Failed to execute yt-dlp: "@ + reason,
        ),
        ToolRunView::Ran(ProcessOutcomeView::Exited(output)) => if output.success {
            Ok(DownloadResultView::succeeded(output_file))
        } else {
            Ok(DownloadResultView::failed("Download failed: "@ + lossy_text(output.stderr)))
        },
    }
}

/// Whether a probe of a tool shows it to be usable: it was found, started
/// and exited with success.
pub open spec fn tool_available(run: ToolRunView) -> bool {
    run matches ToolRunView::Ran(ProcessOutcomeView::Exited(output)) && output.success
}

/// Name under which the downloader is looked up.
pub open spec fn downloader_name() -> Seq<char> {
    "yt-dlp"@
}

/// Name under which the transcoder is looked up.
pub open spec fn transcoder_name() -> Seq<char> {
    "ffmpeg"@
}

fn failed_download(prefix: &str, detail: &str) -> (result: DownloadResult)
    ensures
        result@ == DownloadResultView::failed(prefix@ + detail@),
{
    DownloadResult { success: false, file_path: None, error: Some(join(prefix, detail)) }
}

/// Reports the outcome of a clip request whose downloader run was `run` and
/// whose output was to be written to `output_file`.
pub fn download_clip(run: &ToolRun, output_file: &str) -> (result: Result<DownloadResult, String>)
    ensures
        download_view(result) == download_verdict(run@, output_file@),
{
    match run {
        ToolRun::Unresolved(reason) => Err(join("yt-dlp not found: ", reason.as_str())),
        ToolRun::Ran(ProcessOutcome::LaunchFailed(reason)) => Err(
            join("Failed to execute yt-dlp: ", reason.as_str()),
        ),
        ToolRun::Ran(ProcessOutcome::Exited(output)) => {
            if output.success {
                Ok(
                    DownloadResult {
                        success: true,
                        file_path: Some(String::from_str(output_file)),
                        error: None,
                    },
                )
            } else {
                let diagnostic = decode_lossy(output.stderr.as_slice());
                Ok(failed_download("Download failed: ", diagnostic.as_str()))
            }
        },
    }
}

/// The name under which the downloader is looked up.
pub fn downloader() -> (name: String)
    ensures
        name@ == downloader_name(),
{
    String::from_str("yt-dlp")
}

/// The name under which the transcoder is looked up.
pub fn transcoder() -> (name: String)
    ensures
        name@ == transcoder_name(),
{
    String::from_str("ffmpeg")
}

/// The arguments that make the downloader print its version and exit.
pub fn ytdlp_probe_arguments() -> (args: Vec<String>)
    ensures
        args.deep_view() == seq!["--version"@],
{
    let mut args: Vec<String> = Vec::new();
    args.push(String::from_str("--version"));
    assert(args.deep_view() =~= seq!["--version"@]);
    args
}

/// The arguments that make the transcoder print its version and exit.
pub fn ffmpeg_probe_arguments() -> (args: Vec<String>)
    ensures
        args.deep_view() == seq!["-version"@],
{
    let mut args: Vec<String> = Vec::new();
    args.push(String::from_str("-version"));
    assert(args.deep_view() =~= seq!["-version"@]);
    args
}

fn probe_succeeded(run: &ToolRun) -> (available: bool)
    ensures
        available == tool_available(run@),
{
    match run {
        ToolRun::Ran(ProcessOutcome::Exited(output)) => output.success,
        _ => false,
    }
}

/// Whether the downloader is usable, judged by a run of it with
/// [`ytdlp_probe_arguments`].
pub fn check_ytdlp(run: &ToolRun) -> (available: bool)
    ensures
        available == tool_available(run@),
{
    probe_succeeded(run)
}

/// Whether the transcoder is usable, judged by a run of it with
/// [`ffmpeg_probe_arguments`].
pub fn check_ffmpeg(run: &ToolRun) -> (available: bool)
    ensures
        available == tool_available(run@),
{
    probe_succeeded(run)
}

/// A run of the downloader is reported in one of three ways. A run that
/// exits with success yields a successful result with exactly the intended
/// output path. A run that exits with failure yields a failed result whose
/// diagnostic is not empty and ends in the decoded error stream. A
/// downloader that was not found or could not be started yields a hard error
/// and no result value, and these are the only hard errors; the error for a
/// downloader that was not found names the tool. Every result value carries
/// exactly one of path and diagnostic.
pub proof fn lemma_download_tiers(run: ToolRun, output_file: Seq<char>)
    ensures
        run@ matches ToolRunView::Ran(ProcessOutcomeView::Exited(output)) ==> (if output.success {
            download_verdict(run@, output_file) == Ok::<DownloadResultView, Seq<char>>(
                DownloadResultView::succeeded(output_file),
            )
        } else {
            &&& download_verdict(run@, output_file) matches Ok(outcome)
            &&& !outcome.success
            &&& outcome.file_path is None
            &&& outcome.error matches Some(message)
            &&& message.len() > 0
            &&& message == "Download failed: "@ + lossy_text(output.stderr)
        }),
        run@ is Unresolved || (run@ is Ran && run@->Ran_0 is LaunchFailed) <==> download_verdict(
            run@,
            output_file,
        ) is Err,
        run@ matches ToolRunView::Unresolved(reason) ==> download_verdict(run@, output_file)
            == Err::<DownloadResultView, Seq<char>>(downloader_name() + " not found: "@ + reason),
        download_verdict(run@, output_file) matches Ok(outcome) ==> outcome.well_formed(),
{
    reveal_strlit("Download failed: ");
    reveal_strlit("yt-dlp");
    reveal_strlit(" not found: ");
    reveal_strlit("yt-dlp not found: ");
    assert("yt-dlp not found: "@ =~= "yt-dlp"@ + " not found: "@);
    if let ToolRunView::Unresolved(reason) = run@ {
        assert("yt-dlp not found: "@ + reason =~= downloader_name() + " not found: "@ + reason);
    }
}

} // verus!
