//! Finding the symbol table of a game version: where to ask which release
//! there is, how to read the answer, and where the release lies.

use crate::text::{chars_of, slice_chars, string_of, trim_chars, trimmed};
use vstd::prelude::*;
use vstd::string::*;

verus! {

pub const FABRIC_META_URL: &'static str = "https://meta.fabricmc.net/v2";

pub const FABRIC_MAVEN_URL: &'static str = "https://maven.fabricmc.net";

/// The path of the symbol table inside a release archive.
pub const TINY_PATH: &'static str = "mappings/mappings.tiny";

/// What the version service says of a game version: the latest release of
/// symbol tables for it, if there is one.
pub struct YarnVersion {
    pub game_version: Option<String>,
    pub version: Option<String>,
}

/// The address that answers with the latest release for a game version.
pub fn yarn_lookup_url(mc_version: &str) -> (r: String)
    ensures
        r@ == FABRIC_META_URL@ + "/versions/yarn/"@ + mc_version@ + "?limit=1"@,
{
    String::from_str(FABRIC_META_URL).concat("/versions/yarn/").concat(mc_version).concat("?limit=1")
}

/// The address of the archive of a release.
pub fn yarn_jar_url(yarn_version: &str) -> (r: String)
    ensures
        r@ == FABRIC_MAVEN_URL@ + "/net/fabricmc/yarn/"@ + yarn_version@ + "/yarn-"@ + yarn_version@
            + "-v2.jar"@,
{
    String::from_str(FABRIC_MAVEN_URL).concat("/net/fabricmc/yarn/").concat(yarn_version).concat(
        "/yarn-",
    ).concat(yarn_version).concat("-v2.jar")
}

/// `s` without one opening bracket at its start.
pub open spec fn without_opening(s: Seq<char>) -> Seq<char> {
    if s.len() > 0 && s[0] == '[' {
        s.subrange(1, s.len() as int)
    } else {
        s
    }
}

/// `s` without one closing bracket at its end.
pub open spec fn without_closing(s: Seq<char>) -> Seq<char> {
    if s.len() > 0 && s[s.len() - 1] == ']' {
        s.subrange(0, s.len() - 1)
    } else {
        s
    }
}

/// The one item of a list of at most one: the answer without its brackets,
/// or an empty object where nothing but white space stands between them.
pub open spec fn single_item_of(response: Seq<char>) -> Seq<char> {
    let inner = without_closing(without_opening(response));
    if trimmed(inner).len() == 0 {
        "{}"@
    } else {
        inner
    }
}

/// Takes the one item out of the version service's answer, which is a list
/// of at most one.
pub fn single_item(response: &str) -> (r: String)
    ensures
        r@ == single_item_of(response@),
{
    let all = chars_of(response);
    let from: usize = if all.len() > 0 && all[0] == '[' { 1 } else { 0 };
    let opened = slice_chars(&all, from, all.len());
    let to: usize = if opened.len() > 0 && opened[opened.len() - 1] == ']' {
        opened.len() - 1
    } else {
        opened.len()
    };
    let inner = slice_chars(&opened, 0, to);
    assert(opened@ =~= without_opening(response@));
    assert(inner@ =~= without_closing(opened@));
    if trim_chars(&inner).len() == 0 {
        String::from_str("{}")
    } else {
        string_of(&inner)
    }
}

} // verus!
