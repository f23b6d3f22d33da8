//! Video metadata as the downloader reports it.
//!
//! The downloader prints one JSON document. Title, duration and thumbnail
//! are read from it one by one: a member that is missing, or of another
//! type, leaves its field empty and touches no other field.

use crate::process::{ProcessOutcome, ProcessOutcomeView, ToolRun, ToolRunView};
use crate::text::{decode_lossy, join, lossy_text};
use vstd::prelude::*;
use vstd::string::StringExecFns;

verus! {

/// A parsed JSON document.
#[verifier::external_type_specification]
#[verifier::external_body]
pub struct ExJsonValue(serde_json::Value);

/// Why a text is not a JSON document.
#[verifier::external_type_specification]
#[verifier::external_body]
pub struct ExJsonError(serde_json::Error);

/// What this crate reads of a JSON document: the members of the top-level
/// object whose values are strings, and those whose values are numbers, each
/// number in decimal notation. A document that is not an object has neither.
pub struct JsonMembers {
    pub strings: Map<Seq<char>, Seq<char>>,
    pub numbers: Map<Seq<char>, Seq<char>>,
}

/// The members of the document that `text` parses to, or the parser's
/// complaint if `text` is not exactly one JSON document.
pub uninterp spec fn parsed_members(text: Seq<char>) -> Result<JsonMembers, Seq<char>>;

/// The members of `document`.
pub uninterp spec fn json_members(document: serde_json::Value) -> JsonMembers;

/// The complaint that `error` stands for, as it is shown to a reader.
pub uninterp spec fn error_text(error: serde_json::Error) -> Seq<char>;

/// The value under `key`, if there is one.
pub open spec fn member<V>(members: Map<Seq<char>, V>, key: Seq<char>) -> Option<V> {
    if members.contains_key(key) {
        Some(members[key])
    } else {
        None
    }
}

/// `serde_json::from_str` parses a whole text as one JSON value. It fails on
/// anything else, including text after the value and nesting beyond its
/// depth limit, and what it returns depends on the text alone.
#[verifier::external_body]
fn parse_json(text: &str) -> (parsed: Result<serde_json::Value, serde_json::Error>)
    ensures
        match parsed {
            Ok(document) => parsed_members(text@) == Ok::<JsonMembers, Seq<char>>(
                json_members(document),
            ),
            Err(error) => parsed_members(text@) == Err::<JsonMembers, Seq<char>>(
                error_text(error),
            ),
        },
{
    serde_json::from_str::<serde_json::Value>(text)
}

/// Indexing a `serde_json::Value` by a key yields the member of an object
/// with that key and null in every other case; `as_str` then yields the text
/// of a string and nothing for any other value.
#[verifier::external_body]
fn string_member(document: &serde_json::Value, key: &str) -> (value: Option<String>)
    ensures
        value.deep_view() == member(json_members(*document).strings, key@),
{
    match document[key].as_str() {
        Some(text) => Some(text.to_string()),
        None => None,
    }
}

/// Indexing a `serde_json::Value` by a key yields the member of an object
/// with that key and null in every other case; `as_number` then yields the
/// number and nothing for any other value. The number is written out by its
/// `Display`: an integer in plain digits, any other number in the shortest
/// notation that reads back as the same value.
#[verifier::external_body]
fn number_member(document: &serde_json::Value, key: &str) -> (value: Option<String>)
    ensures
        value.deep_view() == member(json_members(*document).numbers, key@),
{
    match document[key].as_number() {
        Some(number) => Some(number.to_string()),
        None => None,
    }
}

/// The `Display` text of a `serde_json::Error`: what went wrong and, where
/// known, at which line and column.
#[verifier::external_body]
fn describe(error: &serde_json::Error) -> (message: String)
    ensures
        message@ == error_text(*error),
{
    error.to_string()
}

/// What is known about a video. Each field is present on its own account;
/// `error` is set, and nothing else, where the metadata could not be had.
#[derive(Debug, Clone, PartialEq, Eq)]
pub struct VideoMetadata {
    pub title: Option<String>,
    /// Length of the video in seconds, in decimal notation.
    pub duration: Option<String>,
    pub thumbnail: Option<String>,
    pub error: Option<String>,
}

/// Mathematical content of a [`VideoMetadata`].
pub struct VideoMetadataView {
    pub title: Option<Seq<char>>,
    pub duration: Option<Seq<char>>,
    pub thumbnail: Option<Seq<char>>,
    pub error: Option<Seq<char>>,
}

impl View for VideoMetadata {
    type V = VideoMetadataView;

    open spec fn view(&self) -> VideoMetadataView {
        VideoMetadataView {
            title: self.title.deep_view(),
            duration: self.duration.deep_view(),
            thumbnail: self.thumbnail.deep_view(),
            error: self.error.deep_view(),
        }
    }
}

impl VideoMetadataView {
    /// Metadata that holds a diagnostic and nothing else.
    pub open spec fn unavailable(message: Seq<char>) -> VideoMetadataView {
        VideoMetadataView { title: None, duration: None, thumbnail: None, error: Some(message) }
    }
}

/// The metadata that a document holds: the string under `title`, the number
/// under `duration` and the string under `thumbnail`, each if present.
pub open spec fn metadata_of(document: JsonMembers) -> VideoMetadataView {
    VideoMetadataView {
        title: member(document.strings, "title"@),
        duration: member(document.numbers, "duration"@),
        thumbnail: member(document.strings, "thumbnail"@),
        error: None,
    }
}

/// Mathematical content of what [`get_video_metadata`] returns.
pub open spec fn metadata_view(result: Result<VideoMetadata, String>) -> Result<
    VideoMetadataView,
    Seq<char>,
> {
    match result {
        Ok(metadata) => Ok(metadata@),
        Err(message) => Err(message@),
    }
}

/// Reads the metadata out of a parsed document.
pub fn metadata_from_document(document: &serde_json::Value) -> (metadata: VideoMetadata)
    ensures
        metadata@ == metadata_of(json_members(*document)),
{
    VideoMetadata {
        title: string_member(document, "title"),
        duration: number_member(document, "duration"),
        thumbnail: string_member(document, "thumbnail"),
        error: None,
    }
}

fn unavailable(message: String) -> (metadata: VideoMetadata)
    ensures
        metadata@ == VideoMetadataView::unavailable(message@),
{
    VideoMetadata { title: None, duration: None, thumbnail: None, error: Some(message) }
}

/// Reports the metadata of a video from a run of the downloader with the
/// metadata arguments.
///
/// A downloader that exits with a failure status gives metadata that holds
/// only a diagnostic. A downloader that was not found or could not be
/// started, and output that is not a JSON document, are hard errors.
pub fn get_video_metadata(run: &ToolRun) -> (result: Result<VideoMetadata, String>)
    ensures
        match run@ {
            ToolRunView::Unresolved(reason) => metadata_view(result) == Err::<
                VideoMetadataView,
                Seq<char>,
            >("yt-dlp not found: "@ + reason),
            ToolRunView::Ran(ProcessOutcomeView::LaunchFailed(reason)) => metadata_view(result)
                == Err::<VideoMetadataView, Seq<char>>("Failed to get metadata: "@ + reason),
            ToolRunView::Ran(ProcessOutcomeView::Exited(output)) => if !output.success {
                metadata_view(result) == Ok::<VideoMetadataView, Seq<char>>(
                    VideoMetadataView::unavailable("Failed to fetch video metadata"@),
                )
            } else {
                match parsed_members(lossy_text(output.stdout)) {
                    Ok(document) => metadata_view(result) == Ok::<VideoMetadataView, Seq<char>>(
                        metadata_of(document),
                    ),
                    Err(complaint) => metadata_view(result) == Err::<
                        VideoMetadataView,
                        Seq<char>,
                    >("Failed to parse metadata: "@ + complaint),
                }
            },
        },
{
    match run {
        ToolRun::Unresolved(reason) => Err(join("yt-dlp not found: ", reason.as_str())),
        ToolRun::Ran(ProcessOutcome::LaunchFailed(reason)) => Err(
            join("Failed to get metadata: ", reason.as_str()),
        ),
        ToolRun::Ran(ProcessOutcome::Exited(output)) => {
            if !output.success {
                return Ok(unavailable(String::from_str("Failed to fetch video metadata")));
            }
            let text = decode_lossy(output.stdout.as_slice());
            match parse_json(text.as_str()) {
                Ok(document) => Ok(metadata_from_document(&document)),
                Err(error) => {
                    let detail = describe(&error);
                    Err(join("Failed to parse metadata: ", detail.as_str()))
                },
            }
        },
    }
}

/// Each field is read on its own: a document without a number under
/// `duration` has no duration, and its title and thumbnail are what its
/// string members say, as they would be with a duration.
pub proof fn lemma_fields_are_independent(document: JsonMembers, other: JsonMembers)
    requires
        document.strings == other.strings,
    ensures
        !document.numbers.contains_key("duration"@) ==> metadata_of(document).duration is None,
        metadata_of(document).title == metadata_of(other).title,
        metadata_of(document).thumbnail == metadata_of(other).thumbnail,
        metadata_of(document).error is None,
{
}

} // verus!
