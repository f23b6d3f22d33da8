//! Argument vectors for the downloader.
//!
//! Every user-supplied string ends up as one element of an argument vector
//! and is never spliced into another argument or a shell line.

use crate::clock::{clock_text, format_time, lemma_clock_shape};
use crate::decimal::{decimal_digits, push_decimal};
use crate::quality::{format_selector, quality_to_format};
use vstd::prelude::*;
use vstd::string::StringExecFns;

verus! {

/// Feature switches of a clip request. `summary`, `remove_silence` and
/// `high_quality` are carried for the host's sake and have no effect on the
/// command line.
#[derive(Debug, Clone, Copy, PartialEq, Eq)]
pub struct ClipOptions {
    pub subtitles: bool,
    pub summary: bool,
    pub remove_silence: bool,
    pub high_quality: bool,
}

/// One request to cut a time range out of an online video.
#[derive(Debug, Clone, PartialEq, Eq)]
pub struct ClipRequest {
    /// Address of the source video.
    pub url: String,
    /// Stable identifier of the video, used to name the output file.
    pub video_id: String,
    /// Start of the range, in whole seconds.
    pub start: u64,
    /// End of the range, in whole seconds.
    pub end: u64,
    /// Directory that receives the output file.
    pub output_dir: String,
    /// Quality label chosen by the user.
    pub format_id: String,
    pub options: ClipOptions,
}

/// Mathematical content of a [`ClipRequest`].
pub struct ClipRequestView {
    pub url: Seq<char>,
    pub video_id: Seq<char>,
    pub start: nat,
    pub end: nat,
    pub output_dir: Seq<char>,
    pub format_id: Seq<char>,
    pub options: ClipOptions,
}

impl View for ClipRequest {
    type V = ClipRequestView;

    open spec fn view(&self) -> ClipRequestView {
        ClipRequestView {
            url: self.url@,
            video_id: self.video_id@,
            start: self.start as nat,
            end: self.end as nat,
            output_dir: self.output_dir@,
            format_id: self.format_id@,
            options: self.options,
        }
    }
}

impl ClipRequest {
    /// Whether the range starts before it ends.
    pub fn is_well_formed(&self) -> (ok: bool)
        ensures
            ok == self@.well_formed(),
    {
        self.start < self.end
    }
}

impl ClipRequestView {
    /// The range is not empty: it starts before it ends.
    pub open spec fn well_formed(self) -> bool {
        self.start < self.end
    }
}

/// Name of the output file for a video clipped at `timestamp` (seconds
/// since the epoch).
pub open spec fn output_name(video_id: Seq<char>, timestamp: nat) -> Seq<char> {
    video_id + "_"@ + decimal_digits(timestamp) + ".mp4"@
}

/// The section expression for the range from `start` to `end`.
pub open spec fn section_expression(start: nat, end: nat) -> Seq<char> {
    "*"@ + clock_text(start) + "-"@ + clock_text(end)
}

/// The three subtitle options with the language they apply to.
pub open spec fn subtitle_arguments() -> Seq<Seq<char>> {
    seq!["--write-subs"@, "--sub-lang"@, "en"@, "--embed-subs"@]
}

/// The options that every extraction carries, in their fixed order.
pub open spec fn fixed_arguments(request: ClipRequestView, output_file: Seq<char>) -> Seq<
    Seq<char>,
> {
    seq![
        "--format"@,
        format_selector(request.format_id),
        "--merge-output-format"@,
        "mp4"@,
        "--download-sections"@,
        section_expression(request.start, request.end),
        "--force-keyframes-at-cuts"@,
        "-o"@,
        output_file,
    ]
}

/// The downloader's argument vector for `request`, writing to `output_file`:
/// the fixed options, then the subtitle options if asked for, then the
/// address of the video as the last argument.
pub open spec fn clip_args(request: ClipRequestView, output_file: Seq<char>) -> Seq<Seq<char>> {
    fixed_arguments(request, output_file) + (if request.options.subtitles {
        subtitle_arguments()
    } else {
        Seq::<Seq<char>>::empty()
    }) + seq![request.url]
}

/// The argument vector that asks the downloader for a video's metadata.
pub open spec fn metadata_args(url: Seq<char>) -> Seq<Seq<char>> {
    seq!["--dump-json"@, "--no-playlist"@, url]
}

/// Names the output file after the video and the time of the request, so
/// that repeated clips of one video get different files.
pub fn output_filename(video_id: &str, timestamp: u64) -> (name: String)
    ensures
        name@ == output_name(video_id@, timestamp as nat),
{
    let mut name = String::from_str(video_id);
    name.append("_");
    push_decimal(&mut name, timestamp);
    name.append(".mp4");
    name
}

/// Writes the time range as the downloader's section expression.
pub fn download_sections(start: u64, end: u64) -> (expression: String)
    ensures
        expression@ == section_expression(start as nat, end as nat),
{
    let mut expression = String::from_str("*");
    let from = format_time(start);
    let to = format_time(end);
    expression.append(from.as_str());
    expression.append("-");
    expression.append(to.as_str());
    expression
}

/// Builds the downloader's argument vector for `request`, with the output
/// written to `output_file`.
pub fn clip_arguments(request: &ClipRequest, output_file: &str) -> (args: Vec<String>)
    ensures
        args.deep_view() == clip_args(request@, output_file@),
{
    let mut args: Vec<String> = Vec::new();
    args.push(String::from_str("--format"));
    args.push(quality_to_format(request.format_id.as_str()));
    args.push(String::from_str("--merge-output-format"));
    args.push(String::from_str("mp4"));
    args.push(String::from_str("--download-sections"));
    args.push(download_sections(request.start, request.end));
    args.push(String::from_str("--force-keyframes-at-cuts"));
    args.push(String::from_str("-o"));
    args.push(String::from_str(output_file));
    assert(args.deep_view() =~= fixed_arguments(request@, output_file@));
    if request.options.subtitles {
        args.push(String::from_str("--write-subs"));
        args.push(String::from_str("--sub-lang"));
        args.push(String::from_str("en"));
        args.push(String::from_str("--embed-subs"));
        assert(args.deep_view() =~= fixed_arguments(request@, output_file@)
            + subtitle_arguments());
    }
    args.push(request.url.clone());
    assert(args.deep_view() =~= clip_args(request@, output_file@));
    args
}

/// `std::path::Path::join` adjoins a name to a directory in the way of the
/// platform. Nothing is promised of the result: the separator, and what
/// becomes of a name that is itself rooted, differ between platforms.
#[verifier::external_body]
fn path_below(dir: &str, name: &str) -> (path: String)
{
    std::path::Path::new(dir).join(name).to_string_lossy().into_owned()
}

/// An extraction that is ready to run: the downloader's arguments and the
/// file that the downloader will write.
#[derive(Debug, Clone, PartialEq, Eq)]
pub struct ClipCommand {
    pub args: Vec<String>,
    pub output_file: String,
}

/// Mathematical content of a [`ClipCommand`].
pub struct ClipCommandView {
    pub args: Seq<Seq<char>>,
    pub output_file: Seq<char>,
}

impl View for ClipCommand {
    type V = ClipCommandView;

    open spec fn view(&self) -> ClipCommandView {
        ClipCommandView { args: self.args.deep_view(), output_file: self.output_file@ }
    }
}

/// Prepares the extraction that `request` asks for at `timestamp` (seconds
/// since the epoch): names the output file after the video and the time,
/// places it in the request's output directory and builds the downloader's
/// arguments around it.
pub fn clip_command(request: &ClipRequest, timestamp: u64) -> (command: ClipCommand)
    ensures
        command@.args == clip_args(request@, command@.output_file),
{
    let name = output_filename(request.video_id.as_str(), timestamp);
    let output_file = path_below(request.output_dir.as_str(), name.as_str());
    let args = clip_arguments(request, output_file.as_str());
    ClipCommand { args, output_file }
}

/// Builds the argument vector that makes the downloader print a video's
/// metadata instead of fetching it.
pub fn metadata_arguments(url: &str) -> (args: Vec<String>)
    ensures
        args.deep_view() == metadata_args(url@),
{
    let mut args: Vec<String> = Vec::new();
    args.push(String::from_str("--dump-json"));
    args.push(String::from_str("--no-playlist"));
    args.push(String::from_str(url));
    assert(args.deep_view() =~= metadata_args(url@));
    args
}

/// One of the three options that switch subtitles on.
pub open spec fn is_subtitle_flag(argument: Seq<char>) -> bool {
    argument == "--write-subs"@ || argument == "--sub-lang"@ || argument == "--embed-subs"@
}

proof fn lemma_option_lengths()
    ensures
        "--format"@.len() == 8,
        "--merge-output-format"@.len() == 21,
        "mp4"@.len() == 3,
        "--download-sections"@.len() == 19,
        "--force-keyframes-at-cuts"@.len() == 25,
        "-o"@.len() == 2,
        "--write-subs"@.len() == 12,
        "--sub-lang"@.len() == 10,
        "en"@.len() == 2,
        "--embed-subs"@.len() == 12,
        "--download-sections"@[0] == '-',
        "*"@ == seq!['*'],
        "-"@.len() == 1,
{
    reveal_strlit("--format");
    reveal_strlit("--merge-output-format");
    reveal_strlit("mp4");
    reveal_strlit("--download-sections");
    reveal_strlit("--force-keyframes-at-cuts");
    reveal_strlit("-o");
    reveal_strlit("--write-subs");
    reveal_strlit("--sub-lang");
    reveal_strlit("en");
    reveal_strlit("--embed-subs");
    reveal_strlit("*");
    reveal_strlit("-");
    assert("*"@ =~= seq!['*']);
}

/// A section expression starts with an asterisk and has at least eighteen
/// characters.
proof fn lemma_section_shape(start: nat, end: nat)
    ensures
        section_expression(start, end)[0] == '*',
        section_expression(start, end).len() >= 18,
{
    lemma_option_lengths();
    lemma_clock_shape(start);
    lemma_clock_shape(end);
}

/// A path that ends in the name of an output file is not the text of an
/// option: whatever directory stands in front, it is neither the section
/// option nor a subtitle option, so that the two laws below apply to it.
pub proof fn lemma_output_file_is_no_option(dir: Seq<char>, video_id: Seq<char>, timestamp: nat)
    ensures
        dir + output_name(video_id, timestamp) != "--download-sections"@,
        !is_subtitle_flag(dir + output_name(video_id, timestamp)),
{
    let path = dir + output_name(video_id, timestamp);
    reveal_strlit(".mp4");
    reveal_strlit("--download-sections");
    reveal_strlit("--write-subs");
    reveal_strlit("--sub-lang");
    reveal_strlit("--embed-subs");
    assert(path.last() == ".mp4"@[3]);
    assert(path.last() == '4');
    assert("--download-sections"@.last() == 's');
    assert("--write-subs"@.last() == 's');
    assert("--sub-lang"@.last() == 'g');
    assert("--embed-subs"@.last() == 's');
}

/// The argument vector names the section option exactly once, at a fixed
/// place, directly followed by the range written as
/// `*<start clock>-<end clock>`. This is stated for requests whose address
/// and output file are not themselves the text of that option.
pub proof fn lemma_one_download_section(request: ClipRequest, output_file: Seq<char>)
    requires
        request@.well_formed(),
        request.url@ != "--download-sections"@,
        output_file != "--download-sections"@,
    ensures
        clip_args(request@, output_file)[4] == "--download-sections"@,
        clip_args(request@, output_file)[5] == "*"@ + clock_text(request.start as nat) + "-"@
            + clock_text(request.end as nat),
        forall|i: int|
            0 <= i < clip_args(request@, output_file).len() && #[trigger] clip_args(
                request@,
                output_file,
            )[i] == "--download-sections"@ ==> i == 4,
{
    let args = clip_args(request@, output_file);
    lemma_option_lengths();
    lemma_section_shape(request.start as nat, request.end as nat);
    crate::quality::lemma_selector_shape(request.format_id@);
    assert forall|i: int| 0 <= i < args.len() && #[trigger] args[i] == "--download-sections"@
        implies i == 4 by {
        if i != 4 {
            if i < 9 {
                assert(args[i] == fixed_arguments(request@, output_file)[i]);
            } else if request.options.subtitles && i < 13 {
                assert(args[i] == subtitle_arguments()[i - 9]);
            } else {
                assert(args[i] == request.url@);
            }
        }
    }
}

/// The subtitle options are present exactly when the request asks for
/// subtitles, as one block behind the fixed options; either way the fixed
/// options come first unchanged and the address of the video is the last
/// argument. This is stated for requests whose address and output file are
/// not themselves the text of a subtitle option.
pub proof fn lemma_subtitles_gated(request: ClipRequest, output_file: Seq<char>)
    requires
        !is_subtitle_flag(request.url@),
        !is_subtitle_flag(output_file),
    ensures
        request.options.subtitles <==> exists|i: int|
            0 <= i < clip_args(request@, output_file).len() && is_subtitle_flag(
                #[trigger] clip_args(request@, output_file)[i],
            ),
        request.options.subtitles ==> clip_args(request@, output_file).subrange(9, 13)
            == subtitle_arguments(),
        clip_args(request@, output_file).len() == if request.options.subtitles {
            14int
        } else {
            10int
        },
        clip_args(request@, output_file).take(9) == fixed_arguments(request@, output_file),
        clip_args(request@, output_file).last() == request.url@,
{
    let args = clip_args(request@, output_file);
    lemma_option_lengths();
    lemma_section_shape(request.start as nat, request.end as nat);
    crate::quality::lemma_selector_shape(request.format_id@);
    assert(args.take(9) =~= fixed_arguments(request@, output_file));
    if request.options.subtitles {
        assert(args.subrange(9, 13) =~= subtitle_arguments());
        assert(is_subtitle_flag(args[9]));
    } else {
        assert forall|i: int| 0 <= i < args.len() implies !is_subtitle_flag(
            #[trigger] args[i],
        ) by {
            if i < 9 {
                assert(args[i] == fixed_arguments(request@, output_file)[i]);
            } else {
                assert(args[i] == request.url@);
            }
        }
    }
}

} // verus!
