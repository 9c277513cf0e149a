//! The gems of an application, as `bundle list` reports them.

use crate::gem_version::{default_version, is_version, GemVersion};
use crate::layer::{Command, CommandView};
use crate::string_map::StringMap;
use vstd::prelude::*;

verus! {

/// The error of `regex` for a pattern that it cannot compile.
#[verifier::external_type_specification]
#[verifier::external_body]
pub struct ExRegexError(regex::Error);

/// Whether `c` is white space: a character with the Unicode property
/// `White_Space`.
pub open spec fn is_whitespace(c: char) -> bool {
    let n = c as u32;
    (0x09 <= n && n <= 0x0d) || n == 0x20 || n == 0x85 || n == 0xa0 || n == 0x1680 || (0x2000 <= n
        && n <= 0x200a) || n == 0x2028 || n == 0x2029 || n == 0x202f || n == 0x205f || n == 0x3000
}

/// `text` without the white space at its start.
pub open spec fn trimmed_start(text: Seq<char>) -> Seq<char>
    decreases text.len(),
{
    if text.len() > 0 && is_whitespace(text.first()) {
        trimmed_start(text.drop_first())
    } else {
        text
    }
}

/// `text` without the white space at its end.
pub open spec fn trimmed_end(text: Seq<char>) -> Seq<char>
    decreases text.len(),
{
    if text.len() > 0 && is_whitespace(text.last()) {
        trimmed_end(text.drop_last())
    } else {
        text
    }
}

/// `text` without the white space at its start and at its end.
pub open spec fn trimmed(text: Seq<char>) -> Seq<char> {
    trimmed_end(trimmed_start(text))
}

/// `str::trim` returns its argument without the leading and the trailing
/// white space, where white space is what the Unicode property `White_Space`
/// says. This is std's documentation, not proved here.
pub assume_specification[ str::trim ](text: &str) -> (r: &str)
    ensures
        r@ == trimmed(text@),
;

/// The lowercase equivalent of `text`, as `str::to_lowercase` gives it.
pub uninterp spec fn lowercased(text: Seq<char>) -> Seq<char>;

/// `str::to_lowercase` returns the lowercase equivalent of its argument,
/// by the Unicode property `Lowercase`. The result depends on the text
/// alone; nothing more is claimed of it.
pub assume_specification[ str::to_lowercase ](text: &str) -> (r: String)
    ensures
        r@ == lowercased(text@),
;

/// The capture groups of each match of `pattern` in `text`, as `regex`
/// finds them: the matches from left to right, without overlap, and for
/// each match its groups by index, starting with the whole match, a group
/// that took no part in the match being `None`. `None` where `regex` does
/// not compile `pattern`.
pub uninterp spec fn regex_captures(pattern: Seq<char>, text: Seq<char>) -> Option<
    Seq<Seq<Option<Seq<char>>>>,
>;

/// Searches `text` for `pattern`.
///
/// Compiles the pattern with `regex::Regex::new` and walks the matches
/// with `Regex::captures_iter`; each group of each match is copied out as
/// text. The contract gives the outcome a name and claims that it depends
/// on the pattern and the text alone. This is not proved here.
#[verifier::external_body]
fn captures_iter(pattern: &str, text: &str) -> (r: Result<Vec<Vec<Option<String>>>, regex::Error>)
    ensures
        match r {
            Ok(found) => regex_captures(pattern@, text@) == Some(found.deep_view()),
            Err(_) => regex_captures(pattern@, text@) is None,
        },
{
    let re = regex::Regex::new(pattern)?;
    Ok(
        re.captures_iter(text).map(
            |c| c.iter().map(|group| group.map(|m| m.as_str().to_owned())).collect(),
        ).collect(),
    )
}

/// The errors of reading the list of gems.
#[derive(Debug)]
pub enum GemListError {
    /// The pattern for an entry of the list did not compile.
    RegexError(regex::Error),
    /// `bundle list` could not be run; the text says why.
    BundleListShellCommandError(String),
}

/// The pattern of one entry of the list: two spaces, a star, a space, the
/// name, a space, and the version in round brackets.
pub open spec fn gem_entry_pattern() -> Seq<char> {
    "  \\* (\\S+) \\(([a-zA-Z0-9\\.]+)\\)"@
}

/// The text of group `index` of a match, or `default` where the match has
/// no such group.
pub open spec fn group_or(capture: Seq<Option<Seq<char>>>, index: int, default: Seq<char>) -> Seq<
    char,
> {
    if 0 <= index < capture.len() && capture[index] is Some {
        capture[index]->0
    } else {
        default
    }
}

/// The key under which the gem of a match is listed: its name, the first
/// group, in lower case.
pub open spec fn entry_name(capture: Seq<Option<Seq<char>>>) -> Seq<char> {
    lowercased(group_or(capture, 1, Seq::empty()))
}

/// The version of the gem of a match: the second group, or `0.0.0` where
/// there is none or it is no version.
pub open spec fn entry_version(capture: Seq<Option<Seq<char>>>) -> Seq<char> {
    let text = group_or(capture, 2, default_version());
    if is_version(text) {
        text
    } else {
        default_version()
    }
}

/// The gems of a list of matches: each name with its version, a later
/// match replacing an earlier one of the same name.
pub open spec fn gems_of(captures: Seq<Seq<Option<Seq<char>>>>) -> Map<Seq<char>, Seq<char>>
    decreases captures.len(),
{
    if captures.len() == 0 {
        Map::empty()
    } else {
        gems_of(captures.drop_last()).insert(
            entry_name(captures.last()),
            entry_version(captures.last()),
        )
    }
}

/// The command that lists the gems of an application.
pub open spec fn bundle_list_command() -> CommandView {
    CommandView { program: "bundle"@, args: seq!["list"@] }
}

/// The key under which a gem is looked up: the name without the white
/// space around it, in lower case.
pub open spec fn gem_key(name: Seq<char>) -> Seq<char> {
    lowercased(trimmed(name))
}

/// The gems that an application depends on, each with its version, under
/// its name in lower case.
#[derive(Debug)]
pub struct GemList {
    pub gems: StringMap<GemVersion>,
}

/// The text of group `index` of a match, or `default`.
fn group_text<'a>(capture: &'a Vec<Option<String>>, index: usize, default: &'a str) -> (r: &'a str)
    ensures
        r@ == group_or(capture.deep_view(), index as int, default@),
{
    if index < capture.len() {
        match &capture[index] {
            Some(text) => text.as_str(),
            None => default,
        }
    } else {
        default
    }
}

impl GemList {
    /// The list of the gems that the matches of `captures` name: for each
    /// match, in order, the first group is the name and the second group
    /// the version.
    pub fn from_captures(captures: &Vec<Vec<Option<String>>>) -> (r: Self)
        ensures
            r.gems@ == gems_of(captures.deep_view()),
    {
        let mut gems: StringMap<GemVersion> = StringMap::new();
        let mut i: usize = 0;
        proof {
            assert(captures.deep_view().take(0) =~= Seq::empty());
        }
        while i < captures.len()
            invariant
                i <= captures.len(),
                gems@ == gems_of(captures.deep_view().take(i as int)),
            decreases captures.len() - i,
        {
            let capture = &captures[i];
            proof {
                assert(captures.deep_view().take(i + 1).drop_last() =~= captures.deep_view().take(
                    i as int,
                ));
                assert(captures.deep_view().take(i + 1).last() == capture.deep_view());
            }
            let name = group_text(capture, 1, "");
            let version = group_text(capture, 2, "0.0.0");
            proof {
                reveal_strlit("");
                assert(""@ =~= Seq::<char>::empty());
            }
            let version = match GemVersion::from_str(version) {
                Some(version) => version,
                None => GemVersion::default(),
            };
            gems.insert(name.to_lowercase(), version);
            i += 1;
        }
        proof {
            assert(captures.deep_view().take(captures.len() as int) =~= captures.deep_view());
        }
        GemList { gems }
    }

    /// Reads the output of `bundle list`.
    ///
    /// Every part of `string` that looks like an entry of the list gives a
    /// gem; everything else is passed over. The result is an error only
    /// where the pattern of an entry does not compile.
    pub fn from_str(string: &str) -> (r: Result<Self, GemListError>)
        ensures
            match r {
                Ok(list) => regex_captures(gem_entry_pattern(), string@) matches Some(captures)
                    && list.gems@ == gems_of(captures),
                Err(error) => regex_captures(gem_entry_pattern(), string@) is None
                    && error is RegexError,
            },
    {
        match captures_iter("  \\* (\\S+) \\(([a-zA-Z0-9\\.]+)\\)", string) {
            Ok(captures) => Ok(GemList::from_captures(&captures)),
            Err(error) => Err(GemListError::RegexError(error)),
        }
    }

    /// The command whose output `from_bundle_list` reads: `bundle list`.
    pub fn bundle_list() -> (r: Command)
        ensures
            r@ == bundle_list_command(),
    {
        let mut args: Vec<String> = Vec::new();
        args.push("list".to_owned());
        let command = Command { program: "bundle".to_owned(), args };
        proof {
            assert(command@.args =~= bundle_list_command().args);
        }
        command
    }

    /// The list of gems from the outcome of `bundle list`: what the command
    /// printed, or the reason for which it failed. A failure of the command
    /// is handed on; what it printed is read as by `from_str`.
    pub fn from_bundle_list(output: Result<String, String>) -> (r: Result<Self, GemListError>)
        ensures
            match output {
                Ok(stdout) => match r {
                    Ok(list) => regex_captures(gem_entry_pattern(), stdout@) matches Some(
                        captures,
                    ) && list.gems@ == gems_of(captures),
                    Err(error) => regex_captures(gem_entry_pattern(), stdout@) is None
                        && error is RegexError,
                },
                Err(reason) => r matches Err(GemListError::BundleListShellCommandError(text))
                    && text@ == reason@,
            },
    {
        match output {
            Ok(stdout) => GemList::from_str(stdout.as_str()),
            Err(reason) => Err(GemListError::BundleListShellCommandError(reason)),
        }
    }

    /// Whether the list names the gem `str`. White space around the name
    /// and the case of its letters make no difference.
    pub fn has(&self, str: &str) -> (r: bool)
        ensures
            r == self.gems@.contains_key(gem_key(str@)),
    {
        self.gems.get(str.trim().to_lowercase().as_str()).is_some()
    }

    /// The version of the gem `str`, if the list names it. White space
    /// around the name and the case of its letters make no difference.
    pub fn version_for(&self, str: &str) -> (r: Option<&GemVersion>)
        ensures
            match r {
                Some(version) => self.gems@.contains_key(gem_key(str@)) && version@
                    == self.gems@[gem_key(str@)],
                None => !self.gems@.contains_key(gem_key(str@)),
            },
    {
        self.gems.get(str.trim().to_lowercase().as_str())
    }
}

} // verus!
