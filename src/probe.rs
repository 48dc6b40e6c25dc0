//! Reading the SDK's facts out of what the probing commands print.
use vstd::prelude::*;
use vstd::string::*;
use crate::platform::Platform;
use crate::text::{first_line, line_one, parent_dir, parent_of, second_word, trim, trimmed, word_two};

verus! {

/// The text that an optional string holds.
pub open spec fn opt_view(o: Option<String>) -> Option<Seq<char>> {
    match o {
        Some(s) => Some(s@),
        None => None,
    }
}

/// The version in what `flutter --version` prints: the second
/// whitespace-separated word of the first line (the product name is the
/// first). There is none where that line holds fewer than two words.
pub open spec fn version_in(out: Seq<char>) -> Option<Seq<char>> {
    second_word(first_line(out))
}

/// The path in what the locating command prints: its first line, trimmed;
/// none where that is empty.
pub open spec fn located_in(out: Seq<char>) -> Option<Seq<char>> {
    let p = trimmed(first_line(out));
    if p.len() == 0 {
        None
    } else {
        Some(p)
    }
}

/// The directory that holds the located launcher.
pub open spec fn bin_dir_in(p: Platform, out: Seq<char>) -> Option<Seq<char>> {
    match located_in(out) {
        Some(path) => parent_of(path, p.backslash_paths()),
        None => None,
    }
}

/// The SDK root: the parent of the launcher's directory.
pub open spec fn root_dir_of(p: Platform, bin: Option<Seq<char>>) -> Option<Seq<char>> {
    match bin {
        Some(dir) => parent_of(dir, p.backslash_paths()),
        None => None,
    }
}

/// The SDK version that `flutter --version` reports in `output`.
pub fn parse_sdk_version(output: &str) -> (r: Option<String>)
    ensures
        opt_view(r) == version_in(output@),
{
    match word_two(line_one(output)) {
        Some(word) => Some(word.to_owned()),
        None => None,
    }
}

/// The path that a locating command (`which`, `where`) printed in `output`.
pub fn parse_located_path(output: &str) -> (r: Option<String>)
    ensures
        opt_view(r) == located_in(output@),
{
    let path = trim(line_one(output));
    if path.unicode_len() == 0 {
        None
    } else {
        Some(path.to_owned())
    }
}

/// The directory of the SDK launcher, from the output of the command that
/// located it.
pub fn sdk_bin_path(platform: Platform, locate_output: &str) -> (r: Option<String>)
    ensures
        opt_view(r) == bin_dir_in(platform, locate_output@),
{
    match parse_located_path(locate_output) {
        Some(path) => match parent_dir(path.as_str(), platform.uses_backslash()) {
            Some(dir) => Some(dir.to_owned()),
            None => None,
        },
        None => None,
    }
}

/// The SDK root, from the launcher's directory.
pub fn sdk_root_path(platform: Platform, bin: &Option<String>) -> (r: Option<String>)
    ensures
        opt_view(r) == root_dir_of(platform, opt_view(*bin)),
{
    match bin {
        Some(dir) => match parent_dir(dir.as_str(), platform.uses_backslash()) {
            Some(root) => Some(root.to_owned()),
            None => None,
        },
        None => None,
    }
}

} // verus!
