//! Quality labels and the stream selectors that the downloader understands.

use crate::text::same_text;
use vstd::prelude::*;
use vstd::string::StringExecFns;

verus! {

/// The labels that name a maximum picture height.
pub open spec fn is_known_quality(label: Seq<char>) -> bool {
    ||| label == "360p"@
    ||| label == "480p"@
    ||| label == "720p"@
    ||| label == "1080p"@
    ||| label == "1440p"@
    ||| label == "2160p"@
}

/// Best video up to `height` lines merged with the best audio, or failing
/// that the best single stream up to `height` lines.
pub open spec fn height_capped_selector(height: Seq<char>) -> Seq<char> {
    "bestvideo[height<="@ + height + "]+bestaudio/best[height<="@ + height + "]"@
}

/// The selector for a quality label: a known label caps the height at the
/// number it names, in both alternatives; any other label asks for the best
/// stream available.
pub open spec fn format_selector(label: Seq<char>) -> Seq<char> {
    if is_known_quality(label) {
        height_capped_selector(label.drop_last())
    } else {
        "best"@
    }
}

proof fn reveal_selector_parts()
    ensures
        "bestvideo[height<="@.len() == 18,
        "]+bestaudio/best[height<="@.len() == 25,
        "]"@ == seq![']'],
        "bestvideo[height<="@ == seq![
            'b', 'e', 's', 't', 'v', 'i', 'd', 'e', 'o', '[', 'h', 'e', 'i', 'g', 'h', 't', '<', '=',
        ],
        "]+bestaudio/best[height<="@ == seq![
            ']', '+', 'b', 'e', 's', 't', 'a', 'u', 'd', 'i', 'o', '/', 'b', 'e', 's', 't', '[', 'h',
            'e', 'i', 'g', 'h', 't', '<', '=',
        ],
{
    reveal_strlit("bestvideo[height<=");
    reveal_strlit("]+bestaudio/best[height<=");
    reveal_strlit("]");
    assert("]"@ =~= seq![']']);
    assert("bestvideo[height<="@ =~= seq![
        'b', 'e', 's', 't', 'v', 'i', 'd', 'e', 'o', '[', 'h', 'e', 'i', 'g', 'h', 't', '<', '=',
    ]);
    assert("]+bestaudio/best[height<="@ =~= seq![
        ']', '+', 'b', 'e', 's', 't', 'a', 'u', 'd', 'i', 'o', '/', 'b', 'e', 's', 't', '[', 'h',
        'e', 'i', 'g', 'h', 't', '<', '=',
    ]);
}

proof fn reveal_labels()
    ensures
        "360p"@ == seq!['3', '6', '0', 'p'],
        "480p"@ == seq!['4', '8', '0', 'p'],
        "720p"@ == seq!['7', '2', '0', 'p'],
        "1080p"@ == seq!['1', '0', '8', '0', 'p'],
        "1440p"@ == seq!['1', '4', '4', '0', 'p'],
        "2160p"@ == seq!['2', '1', '6', '0', 'p'],
{
    reveal_strlit("360p");
    reveal_strlit("480p");
    reveal_strlit("720p");
    reveal_strlit("1080p");
    reveal_strlit("1440p");
    reveal_strlit("2160p");
    assert("360p"@ =~= seq!['3', '6', '0', 'p']);
    assert("480p"@ =~= seq!['4', '8', '0', 'p']);
    assert("720p"@ =~= seq!['7', '2', '0', 'p']);
    assert("1080p"@ =~= seq!['1', '0', '8', '0', 'p']);
    assert("1440p"@ =~= seq!['1', '4', '4', '0', 'p']);
    assert("2160p"@ =~= seq!['2', '1', '6', '0', 'p']);
}

/// A selector is either the four letters of the fallback or a height-capped
/// expression of at least forty-four characters; it never starts with a dash.
pub proof fn lemma_selector_shape(label: Seq<char>)
    ensures
        format_selector(label).len() == 4 || format_selector(label).len() >= 44,
        format_selector(label)[0] == 'b',
{
    reveal_selector_parts();
    reveal_strlit("best");
}

/// Converts a quality label into the downloader's stream selector.
///
/// An unrecognised label is no error: it selects the best stream available.
pub fn quality_to_format(quality: &str) -> (selector: String)
    ensures
        selector@ == format_selector(quality@),
{
    proof {
        reveal_selector_parts();
        reveal_labels();
    }
    if same_text(quality, "360p") {
        proof {
            reveal_strlit("bestvideo[height<=360]+bestaudio/best[height<=360]");
        }
        let selector = String::from_str("bestvideo[height<=360]+bestaudio/best[height<=360]");
        assert(selector@ =~= height_capped_selector(seq!['3', '6', '0']));
        assert(quality@.drop_last() =~= seq!['3', '6', '0']);
        selector
    } else if same_text(quality, "480p") {
        proof {
            reveal_strlit("bestvideo[height<=480]+bestaudio/best[height<=480]");
        }
        let selector = String::from_str("bestvideo[height<=480]+bestaudio/best[height<=480]");
        assert(selector@ =~= height_capped_selector(seq!['4', '8', '0']));
        assert(quality@.drop_last() =~= seq!['4', '8', '0']);
        selector
    } else if same_text(quality, "720p") {
        proof {
            reveal_strlit("bestvideo[height<=720]+bestaudio/best[height<=720]");
        }
        let selector = String::from_str("bestvideo[height<=720]+bestaudio/best[height<=720]");
        assert(selector@ =~= height_capped_selector(seq!['7', '2', '0']));
        assert(quality@.drop_last() =~= seq!['7', '2', '0']);
        selector
    } else if same_text(quality, "1080p") {
        proof {
            reveal_strlit("bestvideo[height<=1080]+bestaudio/best[height<=1080]");
        }
        let selector = String::from_str("bestvideo[height<=1080]+bestaudio/best[height<=1080]");
        assert(selector@ =~= height_capped_selector(seq!['1', '0', '8', '0']));
        assert(quality@.drop_last() =~= seq!['1', '0', '8', '0']);
        selector
    } else if same_text(quality, "1440p") {
        proof {
            reveal_strlit("bestvideo[height<=1440]+bestaudio/best[height<=1440]");
        }
        let selector = String::from_str("bestvideo[height<=1440]+bestaudio/best[height<=1440]");
        assert(selector@ =~= height_capped_selector(seq!['1', '4', '4', '0']));
        assert(quality@.drop_last() =~= seq!['1', '4', '4', '0']);
        selector
    } else if same_text(quality, "2160p") {
        proof {
            reveal_strlit("bestvideo[height<=2160]+bestaudio/best[height<=2160]");
        }
        let selector = String::from_str("bestvideo[height<=2160]+bestaudio/best[height<=2160]");
        assert(selector@ =~= height_capped_selector(seq!['2', '1', '6', '0']));
        assert(quality@.drop_last() =~= seq!['2', '1', '6', '0']);
        selector
    } else {
        String::from_str("best")
    }
}

} // verus!
