//! Versions of gems.

use vstd::prelude::*;
use vstd::string::StrSliceExecFns;

verus! {

/// Whether `c` can stand in a version: an ASCII letter, a digit, or a dot.
pub open spec fn is_version_char(c: char) -> bool {
    ('a' <= c && c <= 'z') || ('A' <= c && c <= 'Z') || ('0' <= c && c <= '9') || c == '.'
}

/// Whether `text` is a version: at least one character, each of them a
/// version character.
pub open spec fn is_version(text: Seq<char>) -> bool {
    text.len() > 0 && forall|i: int| 0 <= i < text.len() ==> is_version_char(#[trigger] text[i])
}

/// The version that stands in for one that cannot be read.
pub open spec fn default_version() -> Seq<char> {
    "0.0.0"@
}

/// The version of a gem, as `bundle list` prints it.
#[derive(Debug, Clone, PartialEq, Eq)]
pub struct GemVersion {
    version: String,
}

impl View for GemVersion {
    type V = Seq<char>;

    closed spec fn view(&self) -> Seq<char> {
        self.version@
    }
}

impl GemVersion {
    /// The version that `version` spells, where it is one.
    pub fn from_str(version: &str) -> (r: Option<Self>)
        ensures
            r is Some == is_version(version@),
            r matches Some(v) ==> v@ == version@,
    {
        let n = version.unicode_len();
        if n == 0 {
            return None;
        }
        let mut i: usize = 0;
        while i < n
            invariant
                n == version@.len(),
                i <= n,
                forall|k: int| 0 <= k < i ==> is_version_char(#[trigger] version@[k]),
            decreases n - i,
        {
            let c = version.get_char(i);
            let ok = ('a' <= c && c <= 'z') || ('A' <= c && c <= 'Z') || ('0' <= c && c <= '9')
                || c == '.';
            if !ok {
                return None;
            }
            i += 1;
        }
        Some(GemVersion { version: version.to_owned() })
    }

    /// The version as text.
    pub fn as_str(&self) -> (r: &str)
        ensures
            r@ == self@,
    {
        self.version.as_str()
    }
}

impl Default for GemVersion {
    /// The version `0.0.0`.
    fn default() -> (r: Self)
        ensures
            r@ == default_version(),
    {
        GemVersion { version: "0.0.0".to_owned() }
    }
}

} // verus!
