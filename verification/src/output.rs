//! The line that tells the user what became of the URL.

use vstd::prelude::*;
use vstd::string::StringExecFns;

verus! {

/// The line for a URL: that it was opened, where opening was asked for and
/// the browser started; a link to click in every other case.
pub open spec fn output_text(open_requested: bool, opened: bool, url: Seq<char>) -> Seq<char> {
    if open_requested && opened {
        "Opened the URL in the default browser: "@ + url
    } else {
        "Click on this link to generate your PR: "@ + url
    }
}

/// The line to print for `url`. `opened` says whether the browser started; it
/// counts only where opening was asked for.
pub fn output_line(open_requested: bool, opened: bool, url: &str) -> (line: String)
    ensures
        line@ == output_text(open_requested, opened, url@),
{
    let mut line = if open_requested && opened {
        String::from_str("Opened the URL in the default browser: ")
    } else {
        String::from_str("Click on this link to generate your PR: ")
    };
    line.append(url);
    line
}

} // verus!
