//! The decisions of log ingestion: which attachments are read, which are
//! unpacked, whether a log is remapped, and whether it is uploaded again.
//! Fetching and sending is the caller's part.

use crate::cache::{requested, view_of, MappingsCache};
use crate::environment::{mc_version_of, read_mc_version, MapStatus};
use crate::mappings::{remapped, Mappings, MappingsView};
use crate::pattern::{all_captures, all_captures_of, capture_text, group_text, same_text, Groups};
use crate::text::{chars_of, decimal, decimal_of};
use vstd::prelude::*;
use vstd::string::*;

verus! {

/// The greatest size in bytes of an attachment that is read.
pub const MAX_LOG_SIZE: u32 = 8_000_000;

/// Attachments of this size in bytes and more are not taken for logs
/// unasked.
pub const AUTO_LOG_SIZE: u32 = 1_000_000;

pub const MCLOGS_LINK: &'static str = r"https:\/\/mclo\.gs\/([a-zA-Z0-9]+)";

pub const PASTE_GG_LINK: &'static str = r"https:\/\/paste\.gg\/p\/\w+\/([a-zA-Z0-9]+)";

pub const PASTEBIN_LINK: &'static str = r"https:\/\/pastebin\.com\/([a-zA-Z0-9]+)";

/// Where a log came from.
#[derive(PartialEq, Eq, Clone, Copy, Debug, Structural)]
pub enum LogType {
    Uploaded,
    Reuploaded,
    Downloaded,
}

/// Why a log was not taken in.
#[derive(PartialEq, Eq, Clone, Copy, Debug, Structural)]
pub enum IngestError {
    /// The attachment has `size` bytes, more than the `limit`.
    TooLarge { size: u32, limit: u32 },
}

impl LogType {
    /// The word that a report's title begins with.
    pub open spec fn verb(self) -> Seq<char> {
        match self {
            LogType::Uploaded => "Uploaded "@,
            LogType::Reuploaded => "Reuploaded "@,
            LogType::Downloaded => "Scanned "@,
        }
    }

    /// The title of the report on the log `name`, whose analysis took
    /// `took_ms` milliseconds.
    pub fn title_format(&self, name: &str, took_ms: u128) -> (r: String)
        ensures
            r@ == self.verb() + name@ + " in "@ + decimal_of(took_ms as nat) + "ms"@,
    {
        let verb = match self {
            LogType::Uploaded => "Uploaded ",
            LogType::Reuploaded => "Reuploaded ",
            LogType::Downloaded => "Scanned ",
        };
        String::from_str(verb).concat(name).concat(" in ").concat(decimal(took_ms).as_str()).concat("ms")
    }
}

/// Whether `s` ends with `suffix`.
pub open spec fn ends_with(s: Seq<char>, suffix: Seq<char>) -> bool {
    suffix.len() <= s.len() && s.subrange(s.len() - suffix.len(), s.len() as int) == suffix
}

/// Whether `s` ends with `suffix`.
pub fn has_suffix(s: &str, suffix: &str) -> (r: bool)
    ensures
        r == ends_with(s@, suffix@),
{
    let text = chars_of(s);
    let end = chars_of(suffix);
    if end.len() > text.len() {
        return false;
    }
    let shift: usize = text.len() - end.len();
    let mut i: usize = 0;
    while i < end.len()
        invariant
            i <= end.len(),
            shift + end.len() == text.len(),
            text@ == s@,
            end@ == suffix@,
            forall|k: int| 0 <= k < i ==> text[shift + k] == end[k],
        decreases end.len() - i,
    {
        if text[shift + i] != end[i] {
            assert(text@.subrange(shift as int, text@.len() as int)[i as int] == text@[shift + i]);
            return false;
        }
        i += 1;
    }
    assert(text@.subrange(shift as int, text@.len() as int) =~= end@);
    true
}

/// Whether some of `extensions` ends the file name.
pub open spec fn allowed(filename: Seq<char>, extensions: Seq<Seq<char>>) -> bool {
    exists|i: int| 0 <= i < extensions.len() && ends_with(filename, #[trigger] extensions[i])
}

/// Whether an attachment is taken for a log unasked: it is smaller than
/// `AUTO_LOG_SIZE` and its name ends with one of the allowed extensions.
pub fn is_valid_log(size: u32, filename: &str, allowed_extensions: &Vec<String>) -> (r: bool)
    ensures
        r == (size < AUTO_LOG_SIZE && allowed(filename@, allowed_extensions.deep_view())),
{
    if size >= AUTO_LOG_SIZE {
        return false;
    }
    let mut i: usize = 0;
    while i < allowed_extensions.len()
        invariant
            i <= allowed_extensions.len(),
            size < AUTO_LOG_SIZE,
            forall|k: int| 0 <= k < i ==> !ends_with(filename@, #[trigger] allowed_extensions.deep_view()[k]),
        decreases allowed_extensions.len() - i,
    {
        assert(allowed_extensions.deep_view()[i as int] == allowed_extensions[i as int]@);
        if has_suffix(filename, allowed_extensions[i].as_str()) {
            assert(allowed_extensions.deep_view()[i as int] == allowed_extensions[i as int]@);
            return true;
        }
        i += 1;
    }
    false
}

/// An attachment is read unless it is larger than `MAX_LOG_SIZE`.
pub fn admit_attachment(size: u32) -> (r: Result<(), IngestError>)
    ensures
        r == if size > MAX_LOG_SIZE {
            Err::<(), IngestError>(IngestError::TooLarge { size, limit: MAX_LOG_SIZE })
        } else {
            Ok::<(), IngestError>(())
        },
{
    if size > MAX_LOG_SIZE {
        Err(IngestError::TooLarge { size, limit: MAX_LOG_SIZE })
    } else {
        Ok(())
    }
}

/// The greatest index below `n` at which `s` holds `c`; -1 where there is
/// none.
pub open spec fn last_index(s: Seq<char>, c: char, n: int) -> int
    decreases n,
{
    if n <= 0 || n > s.len() {
        -1
    } else if s[n - 1] == c {
        n - 1
    } else {
        last_index(s, c, n - 1)
    }
}

/// Whether the file name has the extension `gz`, in either case: behind its
/// last dot stands `gz`, and that dot stands behind the last slash and is
/// not the first character behind it.
pub open spec fn gzip_named(filename: Seq<char>) -> bool {
    let n = filename.len() as int;
    let dot = last_index(filename, '.', n);
    let slash = last_index(filename, '/', n);
    &&& dot > slash + 1
    &&& n == dot + 3
    &&& (filename[dot + 1] == 'g' || filename[dot + 1] == 'G')
    &&& (filename[dot + 2] == 'z' || filename[dot + 2] == 'Z')
}

/// The last index of a character is -1 or an index below `n`.
pub proof fn last_index_in_bounds(s: Seq<char>, c: char, n: int)
    ensures
        -1 <= last_index(s, c, n),
        last_index(s, c, n) >= 0 ==> last_index(s, c, n) < n && s[last_index(s, c, n)] == c,
    decreases n,
{
    if 0 < n <= s.len() && s[n - 1] != c {
        last_index_in_bounds(s, c, n - 1);
    }
}

/// The last index at which `s` holds `c`.
fn find_last(s: &Vec<char>, c: char) -> (r: Option<usize>)
    ensures
        match r {
            Some(at) => at as int == last_index(s@, c, s@.len() as int) && at < s.len(),
            None => last_index(s@, c, s@.len() as int) == -1,
        },
{
    let mut i: usize = s.len();
    while i > 0
        invariant
            i <= s.len(),
            last_index(s@, c, i as int) == last_index(s@, c, s@.len() as int),
        decreases i,
    {
        if s[i - 1] == c {
            return Some(i - 1);
        }
        i -= 1;
    }
    None
}

/// Whether an attachment is unpacked before it is read.
pub fn is_gzip(filename: &str) -> (r: bool)
    ensures
        r == gzip_named(filename@),
{
    let name = chars_of(filename);
    let n: usize = name.len();
    proof {
        last_index_in_bounds(name@, '.', n as int);
        last_index_in_bounds(name@, '/', n as int);
    }
    match find_last(&name, '.') {
        Some(dot) => {
            let behind_slash = match find_last(&name, '/') {
                Some(slash) => dot > slash && dot - slash > 1,
                None => dot > 0,
            };
            behind_slash && n - dot == 3 && (name[dot + 1] == 'g' || name[dot + 1] == 'G') && (name[dot + 2]
                == 'z' || name[dot + 2] == 'Z')
        },
        None => false,
    }
}

/// The links that the matches stand for: the whole match as the address,
/// group 1 as the id of the paste.
pub open spec fn links_of(found: Seq<Groups>) -> Seq<(Seq<char>, Seq<char>)> {
    Seq::new(
        found.len(),
        |i: int| (group_text(found[i], 0, usize::MAX as nat), group_text(found[i], 1, usize::MAX as nat)),
    )
}

/// Every link of the shape `pattern` in a message, as address and id, in
/// the order in which they stand.
pub fn find_urls(pattern: &str, message_content: &str) -> (r: Vec<(String, String)>)
    ensures
        r.deep_view() == links_of(all_captures_of(pattern@, message_content@)),
{
    let found = all_captures(pattern, message_content);
    let ghost all = found.deep_view();
    let mut links: Vec<(String, String)> = Vec::new();
    let mut i: usize = 0;
    while i < found.len()
        invariant
            i <= found.len(),
            all == found.deep_view(),
            links.len() == i,
            forall|k: int| 0 <= k < i ==> (#[trigger] links[k]).deep_view() == links_of(all)[k],
        decreases found.len() - i,
    {
        let address = capture_text(&found[i], 0, usize::MAX);
        let id = capture_text(&found[i], 1, usize::MAX);
        links.push((address, id));
        i += 1;
    }
    assert(links.deep_view() =~= links_of(all));
    links
}

/// What an attempt to remap a log came to.
pub enum RemapOutcome {
    /// The log names no game version.
    NoVersion,
    /// The log names a version for which there are no symbol tables.
    NoMappings,
    /// The log with its identifiers rewritten.
    Remapped(String),
}

/// A remap outcome as plain values.
pub enum OutcomeView {
    NoVersion,
    NoMappings,
    Remapped(Seq<char>),
}

impl DeepView for RemapOutcome {
    type V = OutcomeView;

    open spec fn deep_view(&self) -> OutcomeView {
        match *self {
            RemapOutcome::NoVersion => OutcomeView::NoVersion,
            RemapOutcome::NoMappings => OutcomeView::NoMappings,
            RemapOutcome::Remapped(text) => OutcomeView::Remapped(text@),
        }
    }
}

/// What remapping `log` comes to, given the cache's entries and what a
/// download gave.
pub open spec fn remap_outcome(
    entries: Seq<crate::cache::EntryView>,
    log: Seq<char>,
    downloaded: Option<MappingsView>,
) -> OutcomeView {
    match mc_version_of(log) {
        Some(version) => match requested(entries, version, downloaded) {
            Some(mappings) => OutcomeView::Remapped(remapped(mappings, log)),
            None => OutcomeView::NoMappings,
        },
        None => OutcomeView::NoVersion,
    }
}

/// Remaps a log with the symbol tables of the game version that it names.
/// `downloaded` is what the download for that version gave, where the caller
/// made one. The request is counted in the cache; a log without a version
/// leaves the cache as it is.
pub fn try_remap(cache: &mut MappingsCache, log: &str, downloaded: Option<Mappings>) -> (r: RemapOutcome)
    requires
        old(cache).wf(),
    ensures
        r.deep_view() == remap_outcome(old(cache)@, log@, view_of(downloaded)),
        final(cache).wf(),
        final(cache).limit() == old(cache).limit(),
        final(cache).purge_size() == old(cache).purge_size(),
        final(cache)@ == match mc_version_of(log@) {
            Some(version) => crate::cache::after_request(
                old(cache)@,
                version,
                view_of(downloaded),
                old(cache).limit(),
                old(cache).purge_size(),
            ),
            None => old(cache)@,
        },
{
    match read_mc_version(log) {
        Some(version) => match cache.get_or_download(version.as_str(), downloaded) {
            Some(mappings) => RemapOutcome::Remapped(mappings.remap_log(log)),
            None => RemapOutcome::NoMappings,
        },
        None => RemapOutcome::NoVersion,
    }
}

/// The status that a report shows for a remap outcome that took `took_ms`
/// milliseconds.
pub fn map_status(outcome: &RemapOutcome, took_ms: u128) -> (r: MapStatus)
    ensures
        r == match outcome.deep_view() {
            OutcomeView::NoVersion => MapStatus::Unmapped,
            OutcomeView::NoMappings => MapStatus::InvalidMcVersion,
            OutcomeView::Remapped(_) => MapStatus::Mapped(took_ms),
        },
{
    match outcome {
        RemapOutcome::NoVersion => MapStatus::Unmapped,
        RemapOutcome::NoMappings => MapStatus::InvalidMcVersion,
        RemapOutcome::Remapped(_) => MapStatus::Mapped(took_ms),
    }
}

/// What is done with a log that was fetched from a paste host.
#[derive(PartialEq, Eq, Clone, Copy, Debug, Structural)]
pub enum Disposition {
    /// The log is shown under the address it already has.
    Keep,
    /// The log is uploaded again and shown under its new address.
    Reupload,
}

/// A fetched log keeps its address where it has one and remapping changed
/// nothing; else it is uploaded again.
pub fn plan_reupload(fetched: &str, remapped_text: &str, has_url: bool) -> (r: Disposition)
    ensures
        r == if remapped_text@ == fetched@ && has_url {
            Disposition::Keep
        } else {
            Disposition::Reupload
        },
{
    if has_url && same_text(remapped_text, fetched) {
        Disposition::Keep
    } else {
        Disposition::Reupload
    }
}

/// The kind and the status under which a fetched log is reported.
pub fn fetched_log_labels(disposition: Disposition, status: MapStatus) -> (r: (LogType, MapStatus))
    ensures
        r == match disposition {
            Disposition::Keep => (LogType::Downloaded, MapStatus::NotRequired),
            Disposition::Reupload => (LogType::Reuploaded, status),
        },
{
    match disposition {
        Disposition::Keep => (LogType::Downloaded, MapStatus::NotRequired),
        Disposition::Reupload => (LogType::Reuploaded, status),
    }
}

pub const UNKNOWN_ERROR: &'static str = "Unknown error";

/// What an upload came to: the address that the paste host gave, else the
/// host's own words on what went wrong, or `UNKNOWN_ERROR` where it gave
/// none.
pub fn upload_outcome(url: Option<String>, error: Option<String>) -> (r: Result<String, String>)
    ensures
        match url {
            Some(address) => r == Ok::<String, String>(address),
            None => r is Err && r->Err_0@ == (match error {
                Some(words) => words@,
                None => UNKNOWN_ERROR@,
            }),
        },
{
    match url {
        Some(address) => Ok(address),
        None => match error {
            Some(words) => Err(words),
            None => Err(String::from_str(UNKNOWN_ERROR)),
        },
    }
}

} // verus!
