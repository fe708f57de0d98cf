//! The checks: each looks for one kind of failure in a log and its
//! environment and reports at most one finding. `check_checks` runs them all
//! in a fixed order.

use crate::environment::{
    catalog_entry, DiscoveredMod, EnvironmentContext, EnvironmentView, KnownMod, Launcher, ModLoader,
    ModView,
};
use crate::findings::{
    bclib_detected, broken_config_file, broken_config_screens, broken_resource_files, crash_detected,
    crash_report, crash_without_details, critical_registry_failure, datapack_loading_failed,
    duck_interface_failed, entrypoint_error, explicit_incompatibility, feather_detected, field_missing,
    frozen_registry_accessed, full_storage, incorrect_java, incorrect_java_unknown, invalid_mixin_config,
    jre_instead_of_jdk, jre_instead_of_jdk_unknown, mcreator_issue, missing_classes, missing_dependency,
    missing_indium, mixin_conflict, conflicting_mixins, mixin_error, mixin_inject_failed,
    optifabric_detected, out_of_memory, polymc_detected, quilt_detected, report_bclib_detected,
    report_broken_config_file, report_broken_config_screens, report_broken_resource_files,
    report_crash_detected, report_crash_report, report_crash_without_details,
    report_critical_registry_failure, report_datapack_loading_failed, report_duck_interface_failed,
    report_entrypoint_error, report_explicit_incompatibility, report_feather_detected,
    report_field_missing, report_frozen_registry_accessed, report_full_storage, report_incorrect_java,
    report_incorrect_java_unknown, report_invalid_mixin_config, report_jre_instead_of_jdk,
    report_jre_instead_of_jdk_unknown, report_mcreator_issue, report_missing_classes,
    report_missing_dependency, report_missing_indium, report_mixin_conflict, report_conflicting_mixins,
    report_mixin_error, report_mixin_inject_failed, report_optifabric_detected, report_out_of_memory,
    report_polymc_detected, report_quilt_detected, report_watchdog_crash, watchdog_crash,
};
use crate::pattern::{
    all_captures, all_captures_of, capture_text, captures, captures2, captures3, captures_of, clipped,
    first_of, grab, grab2, grab3, grab_of, group_text, is_match, pattern_matches, same_text, truncate, Groups,
};
use crate::report::{CheckReport, ReportView};
use vstd::prelude::*;
use vstd::string::*;

verus! {

/// The longest mod id that is shown whole.
pub const MODID_SIZE: usize = 64;

/// The longest Java release that is shown whole.
pub const JAVA_SIZE: usize = 16;

/// The longest free text that is shown whole.
pub const TEXT_SIZE: usize = 512;

pub const CRASH_REPORT_HEAD: &'static str =
    r"---- Minecraft Crash Report ----(?:\r\n|\r|\n)// .+(?:\r\n|\r|\n)(?:\r\n|\r|\n)Time: .+(?:\r\n|\r|\n)Description: (.+)(?:\r\n|\r|\n)(?:\r\n|\r|\n)(.+)(?:\r\n|\r|\n)";

pub const HAS_CRASHED: &'static str = r"Minecraft has crashed!(?:\r\n|\r|\n)(.+)(?:\r\n|\r|\n)";

pub const UNREPORTED_EXCEPTION: &'static str = r"Unreported exception thrown!(?:\r\n|\r|\n)(.+)(?:\r\n|\r|\n)";

pub const REPORT_SAVED: &'static str = r"This crash report has been saved to:";

pub const REQUIRES_BETWEEN: &'static str =
    r"Mod '(.+)' \(\S+\) \S+ requires any version between \S+ and \S+ of (.+), which is missing!";

pub const REQUIRES_LATER: &'static str =
    r"Mod '(.+)' \(\S+\) \S+ requires version \S+ or later of (.+), which is missing!";

pub const REQUIRES_ANY: &'static str = r"Mod '(.+)' \(\S+\) \S+ requires any version of (.+), which is missing!";

pub const INCOMPATIBLE_WITH: &'static str =
    r"Mod '(.+)' \(\S+\) \S+ is incompatible with .+ mod '(.+)' \(\S+\), but a matching version is present: (\S+)!";

pub const WATCHDOG: &'static str = r"java\.lang\.Error: Watchdog";

pub const OUT_OF_MEMORY: &'static str = r"java\.lang\.OutOfMemoryError:";

pub const MIXIN_CONFIG: &'static str = r"RuntimeException: Error creating Mixin config \S+\.json for mod (\S+)";

pub const INJECT_NO_TARGET: &'static str =
    r"InvalidInjectionException: Critical injection failure: @Inject annotation on \S+ could not find any targets matching '.+' in \S+\. Using refmap \S+ \[PREINJECT Applicator Phase \-> \S+:(\w+) from mod (\w+)";

pub const ACCESSOR_NO_TARGET: &'static str =
    r"InvalidAccessorException: No candidates were found matching \S+ in \S+ for \S+:(\w+) from mod (\w+)";

pub const INJECT_MERGED: &'static str =
    r"InvalidInjectionException: \S+ on \S+ with priority \w+ cannot inject into \S+ merged by (\S+)\.\w+\.\w+ with priority \w+ \[PREINJECT Applicator Phase \-> \S+\.json:\S+ from mod (\S+) \->";

pub const MIXIN_APPLY_ERROR: &'static str =
    r"MixinApplyError: Mixin \[\S+\.json:\S+ from mod (\S+)\] from phase \[\S+\] in config \[\S+\.json\] FAILED during \S+";

pub const INJECTION_FROM_MOD: &'static str = r"InvalidInjectionException: .+ from mod ([\w\(\)-]+)\s?\->.+";

pub const MIXIN_APPLY_FAILED: &'static str =
    r"Mixin apply for mod (\S+) failed \S+.json:\w+ from mod \S+ \-> \S+:";

pub const ENTRYPOINT: &'static str =
    r"RuntimeException: Could not execute entrypoint stage '\S+' due to errors, provided by '(\S+)'!";

pub const REDIRECT_CONFLICT: &'static str =
    r"@Redirect conflict\. Skipping (?:#redirector:)?\S+\.json:\S+ from mod (\S+)\->@Redirect::\S+ with priority \w+, already redirected by \S+\.json:\S+ from mod (\S+)->@Redirect::\S+ with priority \w+";

pub const ABSTRACT_METHOD: &'static str =
    r"AbstractMethodError: Receiver class \S+ does not define or inherit an implementation of the resolved method '.+' of interface (\S+)\.\w+\.";

pub const CLASS_NOT_FOUND: &'static str = r"java\.lang\.ClassNotFoundException: (\S+)\.\w+";

pub const BROKEN_MODMENU: &'static str = r"Mod (\S+) provides a broken implementation of ModMenuApi";

pub const REGISTRY_FROZEN: &'static str =
    r"IllegalStateException: Registry is already frozen \(trying to add key ResourceKey\[[\w-]+:[\w-]+ \/ ([\w-]+):\S+\]\)";

pub const REGISTRIES_FAILED: &'static str = r"Failed to load registries due to above errors";

pub const REPLACE_JAVA: &'static str = r"- Replace '.+' \(java\) ([0-9]+) with version ([0-9]+) or later\.";

pub const CLASS_VERSION: &'static str =
    r"UnsupportedClassVersionError: \S+ has been compiled by a more recent version of the Java Runtime \(class file version (\S+)\), this version of the Java Runtime only recognizes class file versions up to (\S+)";

pub const NO_ATTACH_PROVIDER: &'static str =
    r"IllegalStateException: No compatible attachment provider is available";

pub const CICADA_CONFIG: &'static str =
    r"\[cicada\] Failed to parse config file, backing up and overwriting with default config: (.+)";

pub const NO_SUCH_FIELD: &'static str = r"java\.lang\.NoSuchFieldError";

pub const DATAPACKS_FAILED: &'static str =
    r"Failed to load datapacks, can't proceed with server load\. You can either fix your datapacks or reset to vanilla";

pub const PARSE_FAILED: &'static str = r"Failed to parse (\S+) from pack [\w:-]";

pub const NO_SPACE: &'static str = r"IOException: No space left on device";

pub const OPTIFABRIC_INCOMPATIBLE: &'static str =
    r"Mod '.+' \(\S+\) \S+ is incompatible with any version of mod '.+' \(optifabric\)";

pub const OPTIFABRIC_PACKAGE: &'static str = r"me\.modmuss50\.optifabric";

pub const MCREATOR_FRAME: &'static str = r"at net\.mcreator\.([\w-]+)\.";

pub const RENDERER_NULL: &'static str =
    r#"because the return value of "net\.fabricmc\.fabric\.api\.renderer\.v1\.RendererAccess\.getRenderer\(\)" is null"#;

/// What was grabbed, where a pattern matched and its group took part.
pub open spec fn grabbed(found: Option<Option<Seq<char>>>) -> Option<Seq<char>> {
    match found {
        Some(Some(text)) => Some(text),
        _ => None,
    }
}

/// What was grabbed, where a pattern matched and its group took part.
pub fn flatten(found: Option<Option<String>>) -> (r: Option<String>)
    ensures
        r.deep_view() == grabbed(found.deep_view()),
{
    match found {
        Some(Some(text)) => Some(text),
        _ => None,
    }
}

/// The first `limit` matches.
pub open spec fn first_n(found: Seq<Groups>, limit: nat) -> Seq<Groups> {
    if found.len() > limit {
        found.take(limit as int)
    } else {
        found
    }
}

/// Group 1 of each match clipped to `max_len`, each text once, in the order
/// of first occurrence.
pub open spec fn gathered(found: Seq<Groups>, max_len: nat) -> Seq<Seq<char>>
    decreases found.len(),
{
    if found.len() == 0 {
        Seq::empty()
    } else {
        let before = gathered(found.drop_last(), max_len);
        let item = group_text(found.last(), 1, max_len);
        if before.contains(item) {
            before
        } else {
            before.push(item)
        }
    }
}

/// Groups 1 and 2 of each match clipped to `max_len`, each pair once, in
/// the order of first occurrence.
pub open spec fn gathered_pairs(found: Seq<Groups>, max_len: nat) -> Seq<(Seq<char>, Seq<char>)>
    decreases found.len(),
{
    if found.len() == 0 {
        Seq::empty()
    } else {
        let before = gathered_pairs(found.drop_last(), max_len);
        let item = (group_text(found.last(), 1, max_len), group_text(found.last(), 2, max_len));
        if before.contains(item) {
            before
        } else {
            before.push(item)
        }
    }
}

/// What is gathered from the first `limit` matches holds at most `limit`
/// items, and no item twice.
pub proof fn gathered_is_bounded(found: Seq<Groups>, limit: nat, max_len: nat)
    ensures
        gathered(first_n(found, limit), max_len).len() <= limit,
        gathered(found, max_len).len() <= found.len(),
        gathered(found, max_len).no_duplicates(),
    decreases found.len(),
{
    if found.len() > 0 {
        gathered_is_bounded(found.drop_last(), limit, max_len);
    }
    if found.len() > limit {
        gathered_is_bounded(found.take(limit as int), limit, max_len);
    }
}

/// The pairs that are gathered from the first `limit` matches are at most
/// `limit`, and no pair twice.
pub proof fn gathered_pairs_is_bounded(found: Seq<Groups>, limit: nat, max_len: nat)
    ensures
        gathered_pairs(first_n(found, limit), max_len).len() <= limit,
        gathered_pairs(found, max_len).len() <= found.len(),
        gathered_pairs(found, max_len).no_duplicates(),
    decreases found.len(),
{
    if found.len() > 0 {
        gathered_pairs_is_bounded(found.drop_last(), limit, max_len);
    }
    if found.len() > limit {
        gathered_pairs_is_bounded(found.take(limit as int), limit, max_len);
    }
}

/// Whether `text` is among `items`.
pub fn contains_text(items: &Vec<String>, text: &str) -> (r: bool)
    ensures
        r == items.deep_view().contains(text@),
{
    let mut i: usize = 0;
    while i < items.len()
        invariant
            i <= items.len(),
            forall|k: int| 0 <= k < i ==> (#[trigger] items.deep_view()[k]) != text@,
        decreases items.len() - i,
    {
        if same_text(items[i].as_str(), text) {
            assert(items.deep_view()[i as int] == text@);
            return true;
        }
        i += 1;
    }
    false
}

/// Whether the pair of `first` and `second` is among `pairs`.
pub fn contains_pair(pairs: &Vec<(String, String)>, first: &str, second: &str) -> (r: bool)
    ensures
        r == pairs.deep_view().contains((first@, second@)),
{
    let mut i: usize = 0;
    while i < pairs.len()
        invariant
            i <= pairs.len(),
            forall|k: int| 0 <= k < i ==> (#[trigger] pairs.deep_view()[k]) != (first@, second@),
        decreases pairs.len() - i,
    {
        if same_text(pairs[i].0.as_str(), first) && same_text(pairs[i].1.as_str(), second) {
            assert(pairs.deep_view()[i as int] == (first@, second@));
            return true;
        }
        i += 1;
    }
    false
}

/// Collects group 1 of the first `limit` matches, clipped to `max_len`,
/// each text once.
pub fn gather(found: &Vec<Vec<Option<String>>>, limit: usize, max_len: usize) -> (r: Vec<String>)
    ensures
        r.deep_view() == gathered(first_n(found.deep_view(), limit as nat), max_len as nat),
{
    let ghost all = first_n(found.deep_view(), limit as nat);
    let n: usize = if found.len() > limit { limit } else { found.len() };
    let mut items: Vec<String> = Vec::new();
    let mut i: usize = 0;
    assert(items.deep_view() =~= gathered(all.take(0), max_len as nat));
    while i < n
        invariant
            i <= n,
            n == all.len(),
            n <= found.len(),
            forall|k: int| 0 <= k < n ==> all[k] == (#[trigger] found[k]).deep_view(),
            items.deep_view() == gathered(all.take(i as int), max_len as nat),
        decreases n - i,
    {
        proof {
            assert(all.take(i as int + 1).drop_last() =~= all.take(i as int));
            assert(all.take(i as int + 1).last() == found[i as int].deep_view());
        }
        let ghost before = items.deep_view();
        let item = capture_text(&found[i], 1, max_len);
        if !contains_text(&items, item.as_str()) {
            items.push(item);
            assert(items.deep_view() =~= before.push(item@));
        }
        i += 1;
    }
    assert(all.take(i as int) =~= all);
    items
}

/// Collects groups 1 and 2 of the first `limit` matches, clipped to
/// `max_len`, each pair once.
pub fn gather_pairs(found: &Vec<Vec<Option<String>>>, limit: usize, max_len: usize) -> (r: Vec<
    (String, String),
>)
    ensures
        r.deep_view() == gathered_pairs(first_n(found.deep_view(), limit as nat), max_len as nat),
{
    let ghost all = first_n(found.deep_view(), limit as nat);
    let n: usize = if found.len() > limit { limit } else { found.len() };
    let mut pairs: Vec<(String, String)> = Vec::new();
    let mut i: usize = 0;
    assert(pairs.deep_view() =~= gathered_pairs(all.take(0), max_len as nat));
    while i < n
        invariant
            i <= n,
            n == all.len(),
            n <= found.len(),
            forall|k: int| 0 <= k < n ==> all[k] == (#[trigger] found[k]).deep_view(),
            pairs.deep_view() == gathered_pairs(all.take(i as int), max_len as nat),
        decreases n - i,
    {
        proof {
            assert(all.take(i as int + 1).drop_last() =~= all.take(i as int));
            assert(all.take(i as int + 1).last() == found[i as int].deep_view());
        }
        let ghost before = pairs.deep_view();
        let first = capture_text(&found[i], 1, max_len);
        let second = capture_text(&found[i], 2, max_len);
        if !contains_pair(&pairs, first.as_str(), second.as_str()) {
            pairs.push((first, second));
            assert(pairs.deep_view() =~= before.push((first@, second@)));
        }
        i += 1;
    }
    assert(all.take(i as int) =~= all);
    pairs
}

/// The Java release that writes class files of the given version, for the
/// versions from `49.0` (Java 5) to `65.0` (Java 21).
pub open spec fn java_release(classfile_version: Seq<char>) -> Option<Seq<char>> {
    if classfile_version == "49.0"@ {
        Some("5"@)
    } else if classfile_version == "50.0"@ {
        Some("6"@)
    } else if classfile_version == "51.0"@ {
        Some("7"@)
    } else if classfile_version == "52.0"@ {
        Some("8"@)
    } else if classfile_version == "53.0"@ {
        Some("9"@)
    } else if classfile_version == "54.0"@ {
        Some("10"@)
    } else if classfile_version == "55.0"@ {
        Some("11"@)
    } else if classfile_version == "56.0"@ {
        Some("12"@)
    } else if classfile_version == "57.0"@ {
        Some("13"@)
    } else if classfile_version == "58.0"@ {
        Some("14"@)
    } else if classfile_version == "59.0"@ {
        Some("15"@)
    } else if classfile_version == "60.0"@ {
        Some("16"@)
    } else if classfile_version == "61.0"@ {
        Some("17"@)
    } else if classfile_version == "62.0"@ {
        Some("18"@)
    } else if classfile_version == "63.0"@ {
        Some("19"@)
    } else if classfile_version == "64.0"@ {
        Some("20"@)
    } else if classfile_version == "65.0"@ {
        Some("21"@)
    } else {
        None
    }
}

/// The Java release that writes class files of the given version.
pub fn match_java_classfile_version(classfile_version: &str) -> (r: Option<&'static str>)
    ensures
        r.deep_view() == java_release(classfile_version@),
{
    if same_text(classfile_version, "49.0") {
        Some("5")
    } else if same_text(classfile_version, "50.0") {
        Some("6")
    } else if same_text(classfile_version, "51.0") {
        Some("7")
    } else if same_text(classfile_version, "52.0") {
        Some("8")
    } else if same_text(classfile_version, "53.0") {
        Some("9")
    } else if same_text(classfile_version, "54.0") {
        Some("10")
    } else if same_text(classfile_version, "55.0") {
        Some("11")
    } else if same_text(classfile_version, "56.0") {
        Some("12")
    } else if same_text(classfile_version, "57.0") {
        Some("13")
    } else if same_text(classfile_version, "58.0") {
        Some("14")
    } else if same_text(classfile_version, "59.0") {
        Some("15")
    } else if same_text(classfile_version, "60.0") {
        Some("16")
    } else if same_text(classfile_version, "61.0") {
        Some("17")
    } else if same_text(classfile_version, "62.0") {
        Some("18")
    } else if same_text(classfile_version, "63.0") {
        Some("19")
    } else if same_text(classfile_version, "64.0") {
        Some("20")
    } else if same_text(classfile_version, "65.0") {
        Some("21")
    } else {
        None
    }
}

/// Whether a known mod's catalog id is `id`.
pub open spec fn knows(known: Seq<(ModView, ModView)>, id: Seq<char>) -> bool {
    exists|k: int| 0 <= k < known.len() && (#[trigger] known[k]).0.0 == id
}

/// Whether a known mod's catalog id is `id`.
pub fn has_known(known: &Vec<KnownMod>, id: &str) -> (r: bool)
    ensures
        r == knows(known.deep_view(), id@),
{
    let mut i: usize = 0;
    while i < known.len()
        invariant
            i <= known.len(),
            forall|k: int| 0 <= k < i ==> (#[trigger] known.deep_view()[k]).0.0 != id@,
        decreases known.len() - i,
    {
        if same_text(known[i].0.0, id) {
            assert(known.deep_view()[i as int].0.0 == id@);
            return true;
        }
        i += 1;
    }
    false
}

/// The version of the first of `mods` whose id is `id`.
pub open spec fn version_of(mods: Seq<ModView>, id: Seq<char>) -> Option<Seq<char>> {
    match catalog_entry(mods, id, 0) {
        Some(found) => Some(found.1),
        None => None,
    }
}

/// The version of the first of `mods` whose id is `id`.
pub fn find_version(mods: &Vec<DiscoveredMod>, id: &str) -> (r: Option<String>)
    ensures
        r.deep_view() == version_of(mods.deep_view(), id@),
{
    let mut best: Option<usize> = None;
    let mut i: usize = mods.len();
    while i > 0
        invariant
            i <= mods.len(),
            best is Some ==> best->0 < mods.len(),
            catalog_entry(mods.deep_view(), id@, i as int) == (match best {
                Some(at) => Some(mods.deep_view()[at as int]),
                None => None,
            }),
        decreases i,
    {
        i -= 1;
        if same_text(mods[i].0.as_str(), id) {
            best = Some(i);
        }
    }
    match best {
        Some(at) => Some(mods[at].1.clone()),
        None => None,
    }
}

/// What is made of the evidence of a crash: a crash report's summary where
/// the head of one was found; else the line after a crash banner; else,
/// where the log only says that a report was saved, a crash without
/// details.
pub open spec fn crash_report_analysis_decision(
    head: Option<Groups>,
    banner: Option<Seq<char>>,
    saved: bool,
) -> Option<ReportView> {
    if head is Some {
        Some(crash_report(group_text(head->0, 1, 256), group_text(head->0, 2, TEXT_SIZE as nat)))
    } else if banner is Some {
        Some(crash_detected(banner->0))
    } else if saved {
        Some(crash_without_details())
    } else {
        None
    }
}

/// A crash report's summary where the log holds the head of one; else the
/// line after a crash banner; else, where the log only says that a report
/// was saved, a crash without details.
pub open spec fn crash_report_analysis_finding(log: Seq<char>) -> Option<ReportView> {
    crash_report_analysis_decision(
        captures_of(CRASH_REPORT_HEAD@, log),
        grabbed(
            first_of(
                grab_of(HAS_CRASHED@, log, TEXT_SIZE as nat),
                grab_of(UNREPORTED_EXCEPTION@, log, TEXT_SIZE as nat),
            ),
        ),
        captures_of(REPORT_SAVED@, log) is Some,
    )
}

/// Makes a finding of the evidence of a crash.
pub fn decide_crash_report_analysis(head: Option<Vec<Option<String>>>, banner: Option<String>, saved: bool) -> (r:
    Option<CheckReport>)
    ensures
        r.deep_view() == crash_report_analysis_decision(head.deep_view(), banner.deep_view(), saved),
{
    if let Some(head) = head {
        let description = capture_text(&head, 1, 256);
        let error = capture_text(&head, 2, TEXT_SIZE);
        return Some(report_crash_report(description.as_str(), error.as_str()));
    }
    if let Some(error) = banner {
        return Some(report_crash_detected(error.as_str()));
    }
    if saved {
        return Some(report_crash_without_details());
    }
    None
}

/// A crash report's summary where the log holds the head of one; else the
/// line after a crash banner; else, where the log only says that a report
/// was saved, a crash without details.
pub fn crash_report_analysis(log: &str, _ctx: &EnvironmentContext) -> (r: Option<CheckReport>)
    ensures
        r.deep_view() == crash_report_analysis_finding(log@),
{
    decide_crash_report_analysis(
        captures(CRASH_REPORT_HEAD, log),
        flatten(grab2(HAS_CRASHED, UNREPORTED_EXCEPTION, log, TEXT_SIZE)),
        captures(REPORT_SAVED, log).is_some(),
    )
}

/// What is made of the evidence on dependencies: a missing dependency
/// before a declared incompatibility.
pub open spec fn dependency_generic_decision(missing: Option<Groups>, clash: Option<Groups>) -> Option<
    ReportView,
> {
    if missing is Some {
        Some(
            missing_dependency(
                group_text(missing->0, 1, MODID_SIZE as nat),
                group_text(missing->0, 2, MODID_SIZE as nat),
            ),
        )
    } else if clash is Some {
        Some(
            explicit_incompatibility(
                group_text(clash->0, 1, MODID_SIZE as nat),
                group_text(clash->0, 3, 64),
                group_text(clash->0, 2, MODID_SIZE as nat),
            ),
        )
    } else {
        None
    }
}

/// A dependency that is missing, by the first of three phrasings; else a
/// declared incompatibility.
pub open spec fn dependency_generic_finding(log: Seq<char>) -> Option<ReportView> {
    dependency_generic_decision(
        first_of(
            first_of(captures_of(REQUIRES_BETWEEN@, log), captures_of(REQUIRES_LATER@, log)),
            captures_of(REQUIRES_ANY@, log),
        ),
        captures_of(INCOMPATIBLE_WITH@, log),
    )
}

/// Makes a finding of the evidence on dependencies.
pub fn decide_dependency_generic(missing: Option<Vec<Option<String>>>, clash: Option<Vec<Option<String>>>) -> (r:
    Option<CheckReport>)
    ensures
        r.deep_view() == dependency_generic_decision(missing.deep_view(), clash.deep_view()),
{
    if let Some(missing) = missing {
        let dependent = capture_text(&missing, 1, MODID_SIZE);
        let dependency = capture_text(&missing, 2, MODID_SIZE);
        return Some(report_missing_dependency(dependent.as_str(), dependency.as_str()));
    }
    if let Some(clash) = clash {
        let mod_declared = capture_text(&clash, 1, MODID_SIZE);
        let mod_implicated = capture_text(&clash, 2, MODID_SIZE);
        let implicated_version = capture_text(&clash, 3, 64);
        return Some(
            report_explicit_incompatibility(
                mod_declared.as_str(),
                implicated_version.as_str(),
                mod_implicated.as_str(),
            ),
        );
    }
    None
}

/// A dependency that is missing, by the first of three phrasings; else a
/// declared incompatibility.
pub fn dependency_generic(log: &str, _ctx: &EnvironmentContext) -> (r: Option<CheckReport>)
    ensures
        r.deep_view() == dependency_generic_finding(log@),
{
    decide_dependency_generic(
        captures3(REQUIRES_BETWEEN, REQUIRES_LATER, REQUIRES_ANY, log),
        captures(INCOMPATIBLE_WITH, log),
    )
}

/// What is made of the evidence of a crash's cause, the first that
/// applies of: a watchdog kill, memory exhaustion, an invalid mixin config,
/// a mixin without target, two mixins that collide, another mixin failure,
/// a failing entrypoint.
pub open spec fn crash_generic_decision(
    watchdog: bool,
    memory: bool,
    config: Option<Seq<char>>,
    target: Option<Groups>,
    merged: Option<Groups>,
    failed: Option<Seq<char>>,
    entrypoint: Option<Seq<char>>,
) -> Option<ReportView> {
    if watchdog {
        Some(watchdog_crash())
    } else if memory {
        Some(out_of_memory())
    } else if config is Some {
        Some(invalid_mixin_config(config->0))
    } else if target is Some {
        Some(
            mixin_inject_failed(
                group_text(target->0, 1, 128),
                group_text(target->0, 2, MODID_SIZE as nat),
            ),
        )
    } else if merged is Some {
        Some(
            mixin_conflict(
                group_text(merged->0, 2, MODID_SIZE as nat),
                group_text(merged->0, 1, MODID_SIZE as nat),
            ),
        )
    } else if failed is Some {
        Some(mixin_error(failed->0))
    } else if entrypoint is Some {
        Some(entrypoint_error(entrypoint->0))
    } else {
        None
    }
}

/// The first that applies of: a watchdog kill, memory exhaustion, an
/// invalid mixin config, a mixin without target, two mixins that collide,
/// another mixin failure, a failing entrypoint.
pub open spec fn crash_generic_finding(log: Seq<char>) -> Option<ReportView> {
    crash_generic_decision(
        pattern_matches(WATCHDOG@, log),
        pattern_matches(OUT_OF_MEMORY@, log),
        grabbed(grab_of(MIXIN_CONFIG@, log, 64)),
        first_of(captures_of(INJECT_NO_TARGET@, log), captures_of(ACCESSOR_NO_TARGET@, log)),
        captures_of(INJECT_MERGED@, log),
        grabbed(
            first_of(
                first_of(
                    grab_of(MIXIN_APPLY_ERROR@, log, MODID_SIZE as nat),
                    grab_of(INJECTION_FROM_MOD@, log, MODID_SIZE as nat),
                ),
                grab_of(MIXIN_APPLY_FAILED@, log, MODID_SIZE as nat),
            ),
        ),
        grabbed(grab_of(ENTRYPOINT@, log, MODID_SIZE as nat)),
    )
}

/// Makes a finding of the evidence of a crash's cause.
pub fn decide_crash_generic(
    watchdog: bool,
    memory: bool,
    config: Option<String>,
    target: Option<Vec<Option<String>>>,
    merged: Option<Vec<Option<String>>>,
    failed: Option<String>,
    entrypoint: Option<String>,
) -> (r: Option<CheckReport>)
    ensures
        r.deep_view() == crash_generic_decision(
            watchdog,
            memory,
            config.deep_view(),
            target.deep_view(),
            merged.deep_view(),
            failed.deep_view(),
            entrypoint.deep_view(),
        ),
{
    if watchdog {
        return Some(report_watchdog_crash());
    }
    if memory {
        return Some(report_out_of_memory());
    }
    if let Some(mod_id) = config {
        return Some(report_invalid_mixin_config(mod_id.as_str()));
    }
    if let Some(target) = target {
        let mixin = capture_text(&target, 1, 128);
        let mod_id = capture_text(&target, 2, MODID_SIZE);
        return Some(report_mixin_inject_failed(mixin.as_str(), mod_id.as_str()));
    }
    if let Some(merged) = merged {
        let first = capture_text(&merged, 1, MODID_SIZE);
        let second = capture_text(&merged, 2, MODID_SIZE);
        return Some(report_mixin_conflict(second.as_str(), first.as_str()));
    }
    if let Some(mod_id) = failed {
        return Some(report_mixin_error(mod_id.as_str()));
    }
    if let Some(mod_id) = entrypoint {
        return Some(report_entrypoint_error(mod_id.as_str()));
    }
    None
}

/// The first that applies of: a watchdog kill, memory exhaustion, an
/// invalid mixin config, a mixin without target, two mixins that collide,
/// another mixin failure, a failing entrypoint.
pub fn crash_generic(log: &str, _ctx: &EnvironmentContext) -> (r: Option<CheckReport>)
    ensures
        r.deep_view() == crash_generic_finding(log@),
{
    decide_crash_generic(
        is_match(WATCHDOG, log),
        is_match(OUT_OF_MEMORY, log),
        flatten(grab(MIXIN_CONFIG, log, 64)),
        captures2(INJECT_NO_TARGET, ACCESSOR_NO_TARGET, log),
        captures(INJECT_MERGED, log),
        flatten(grab3(MIXIN_APPLY_ERROR, INJECTION_FROM_MOD, MIXIN_APPLY_FAILED, log, MODID_SIZE)),
        flatten(grab(ENTRYPOINT, log, MODID_SIZE)),
    )
}

/// The pairs of mods whose redirects collide, among the first seven
/// conflicts that the log reports.
pub open spec fn mixin_conflicts_finding(log: Seq<char>) -> Option<ReportView> {
    let pairs = gathered_pairs(first_n(all_captures_of(REDIRECT_CONFLICT@, log), 7), MODID_SIZE as nat);
    if pairs.len() > 0 {
        Some(conflicting_mixins(pairs))
    } else {
        None
    }
}

/// The pairs of mods whose redirects collide, among the first seven
/// conflicts that the log reports.
pub fn mixin_conflicts(log: &str, _ctx: &EnvironmentContext) -> (r: Option<CheckReport>)
    ensures
        r.deep_view() == mixin_conflicts_finding(log@),
{
    let pairs = gather_pairs(&all_captures(REDIRECT_CONFLICT, log), 7, MODID_SIZE);
    assert(pairs.deep_view().len() == pairs.len());
    if pairs.len() > 0 {
        Some(report_conflicting_mixins(&pairs))
    } else {
        None
    }
}

/// The package of an interface that a class should implement and does not.
pub open spec fn duck_fail_finding(log: Seq<char>) -> Option<ReportView> {
    match grabbed(grab_of(ABSTRACT_METHOD@, log, TEXT_SIZE as nat)) {
        Some(found) => Some(duck_interface_failed(found)),
        None => None,
    }
}

/// The package of an interface that a class should implement and does not.
pub fn duck_fail(log: &str, _ctx: &EnvironmentContext) -> (r: Option<CheckReport>)
    ensures
        r.deep_view() == duck_fail_finding(log@),
{
    match grab(ABSTRACT_METHOD, log, TEXT_SIZE) {
        Some(Some(found)) => Some(report_duck_interface_failed(found.as_str())),
        _ => None,
    }
}

/// The packages of the first fifteen classes that could not be found.
pub open spec fn class_missing_generic_finding(log: Seq<char>) -> Option<ReportView> {
    let items = gathered(first_n(all_captures_of(CLASS_NOT_FOUND@, log), 15), 64 as nat);
    if items.len() > 0 {
        Some(missing_classes(items))
    } else {
        None
    }
}

/// The packages of the first fifteen classes that could not be found.
pub fn class_missing_generic(log: &str, _ctx: &EnvironmentContext) -> (r: Option<CheckReport>)
    ensures
        r.deep_view() == class_missing_generic_finding(log@),
{
    let items = gather(&all_captures(CLASS_NOT_FOUND, log), 15, 64);
    assert(items.deep_view().len() == items.len());
    if items.len() > 0 {
        Some(report_missing_classes(&items))
    } else {
        None
    }
}

/// The first fifteen mods whose config screen is broken.
pub open spec fn broken_modmenu_finding(log: Seq<char>) -> Option<ReportView> {
    let items = gathered(first_n(all_captures_of(BROKEN_MODMENU@, log), 15), MODID_SIZE as nat);
    if items.len() > 0 {
        Some(broken_config_screens(items))
    } else {
        None
    }
}

/// The first fifteen mods whose config screen is broken.
pub fn broken_modmenu(log: &str, _ctx: &EnvironmentContext) -> (r: Option<CheckReport>)
    ensures
        r.deep_view() == broken_modmenu_finding(log@),
{
    let items = gather(&all_captures(BROKEN_MODMENU, log), 15, MODID_SIZE);
    assert(items.deep_view().len() == items.len());
    if items.len() > 0 {
        Some(report_broken_config_screens(&items))
    } else {
        None
    }
}

/// The namespace that wrote to a frozen registry.
pub open spec fn frozen_registry_finding(log: Seq<char>) -> Option<ReportView> {
    match grabbed(grab_of(REGISTRY_FROZEN@, log, MODID_SIZE as nat)) {
        Some(found) => Some(frozen_registry_accessed(found)),
        None => None,
    }
}

/// The namespace that wrote to a frozen registry.
pub fn frozen_registry(log: &str, _ctx: &EnvironmentContext) -> (r: Option<CheckReport>)
    ensures
        r.deep_view() == frozen_registry_finding(log@),
{
    match grab(REGISTRY_FROZEN, log, MODID_SIZE) {
        Some(Some(found)) => Some(report_frozen_registry_accessed(found.as_str())),
        _ => None,
    }
}

/// Registries that failed to load.
pub open spec fn failed_registry_finding(log: Seq<char>) -> Option<ReportView> {
    if pattern_matches(REGISTRIES_FAILED@, log) {
        Some(critical_registry_failure())
    } else {
        None
    }
}

/// Registries that failed to load.
pub fn failed_registry(log: &str, _ctx: &EnvironmentContext) -> (r: Option<CheckReport>)
    ensures
        r.deep_view() == failed_registry_finding(log@),
{
    if is_match(REGISTRIES_FAILED, log) {
        Some(report_critical_registry_failure())
    } else {
        None
    }
}

/// What is made of the evidence on the Java release: the loader's own
/// advice before the class-file versions of an
/// `UnsupportedClassVersionError`, each looked up in the table of releases.
pub open spec fn java_decision(advice: Option<Groups>, versions: Option<Groups>) -> Option<ReportView> {
    if advice is Some {
        Some(incorrect_java(group_text(advice->0, 2, JAVA_SIZE as nat), group_text(advice->0, 1, JAVA_SIZE as nat)))
    } else if versions is Some {
        let has = java_release(group_text(versions->0, 2, usize::MAX as nat));
        let need = java_release(group_text(versions->0, 1, usize::MAX as nat));
        if has is Some && need is Some {
            Some(incorrect_java(need->0, has->0))
        } else {
            Some(incorrect_java_unknown())
        }
    } else {
        None
    }
}

/// A Java release that is too old: by the loader's own advice where the
/// log holds it, else by the class-file versions of an
/// `UnsupportedClassVersionError`, each looked up in the table of releases.
pub open spec fn java_finding(log: Seq<char>) -> Option<ReportView> {
    java_decision(captures_of(REPLACE_JAVA@, log), captures_of(CLASS_VERSION@, log))
}

/// Makes a finding of the evidence on the Java release.
pub fn decide_java(advice: Option<Vec<Option<String>>>, versions: Option<Vec<Option<String>>>) -> (r: Option<
    CheckReport,
>)
    ensures
        r.deep_view() == java_decision(advice.deep_view(), versions.deep_view()),
{
    if let Some(advice) = advice {
        let has = capture_text(&advice, 1, JAVA_SIZE);
        let need = capture_text(&advice, 2, JAVA_SIZE);
        return Some(report_incorrect_java(need.as_str(), has.as_str()));
    }
    if let Some(versions) = versions {
        let has_version = capture_text(&versions, 2, usize::MAX);
        let need_version = capture_text(&versions, 1, usize::MAX);
        let has = match_java_classfile_version(has_version.as_str());
        let need = match_java_classfile_version(need_version.as_str());
        return match (has, need) {
            (Some(has), Some(need)) => Some(report_incorrect_java(need, has)),
            _ => Some(report_incorrect_java_unknown()),
        };
    }
    None
}

/// A Java release that is too old: by the loader's own advice where the
/// log holds it, else by the class-file versions of an
/// `UnsupportedClassVersionError`, each looked up in the table of releases.
pub fn java(log: &str, _ctx: &EnvironmentContext) -> (r: Option<CheckReport>)
    ensures
        r.deep_view() == java_finding(log@),
{
    decide_java(captures(REPLACE_JAVA, log), captures(CLASS_VERSION, log))
}

/// A runtime-only Java where an attachment provider is needed; the release
/// to download is the version of the discovered mod `java`, where the log
/// names it, clipped to `JAVA_SIZE`.
pub open spec fn jdk_finding(log: Seq<char>, env: EnvironmentView) -> Option<ReportView> {
    if pattern_matches(NO_ATTACH_PROVIDER@, log) {
        match version_of(env.discovered_mods, "java"@) {
            Some(version) => Some(jre_instead_of_jdk(clipped(version, JAVA_SIZE as nat))),
            None => Some(jre_instead_of_jdk_unknown()),
        }
    } else {
        None
    }
}

/// A runtime-only Java where an attachment provider is needed; the release
/// to download is the version of the discovered mod `java`, where the log
/// names it, clipped to `JAVA_SIZE`.
pub fn jdk(log: &str, ctx: &EnvironmentContext) -> (r: Option<CheckReport>)
    ensures
        r.deep_view() == jdk_finding(log@, ctx.deep_view()),
{
    if is_match(NO_ATTACH_PROVIDER, log) {
        match find_version(&ctx.discovered_mods, "java") {
            Some(version) => Some(report_jre_instead_of_jdk(truncate(version.as_str(), JAVA_SIZE).as_str())),
            None => Some(report_jre_instead_of_jdk_unknown()),
        }
    } else {
        None
    }
}

/// The config file that was reset.
pub open spec fn broken_cicada_config_finding(log: Seq<char>) -> Option<ReportView> {
    match grabbed(grab_of(CICADA_CONFIG@, log, TEXT_SIZE as nat)) {
        Some(found) => Some(broken_config_file(found)),
        None => None,
    }
}

/// The config file that was reset.
pub fn broken_cicada_config(log: &str, _ctx: &EnvironmentContext) -> (r: Option<CheckReport>)
    ensures
        r.deep_view() == broken_cicada_config_finding(log@),
{
    match grab(CICADA_CONFIG, log, TEXT_SIZE) {
        Some(Some(found)) => Some(report_broken_config_file(found.as_str())),
        _ => None,
    }
}

/// A field that is missing at run time.
pub open spec fn missing_field_finding(log: Seq<char>) -> Option<ReportView> {
    if pattern_matches(NO_SUCH_FIELD@, log) {
        Some(field_missing())
    } else {
        None
    }
}

/// A field that is missing at run time.
pub fn missing_field(log: &str, _ctx: &EnvironmentContext) -> (r: Option<CheckReport>)
    ensures
        r.deep_view() == missing_field_finding(log@),
{
    if is_match(NO_SUCH_FIELD, log) {
        Some(report_field_missing())
    } else {
        None
    }
}

/// Datapacks that the server could not load.
pub open spec fn datapacks_failed_finding(log: Seq<char>) -> Option<ReportView> {
    if pattern_matches(DATAPACKS_FAILED@, log) {
        Some(datapack_loading_failed())
    } else {
        None
    }
}

/// Datapacks that the server could not load.
pub fn datapacks_failed(log: &str, _ctx: &EnvironmentContext) -> (r: Option<CheckReport>)
    ensures
        r.deep_view() == datapacks_failed_finding(log@),
{
    if is_match(DATAPACKS_FAILED, log) {
        Some(report_datapack_loading_failed())
    } else {
        None
    }
}

/// The first fourteen resource files that could not be parsed.
pub open spec fn resource_files_finding(log: Seq<char>) -> Option<ReportView> {
    let items = gathered(first_n(all_captures_of(PARSE_FAILED@, log), 14), 64 as nat);
    if items.len() > 0 {
        Some(broken_resource_files(items))
    } else {
        None
    }
}

/// The first fourteen resource files that could not be parsed.
pub fn resource_files(log: &str, _ctx: &EnvironmentContext) -> (r: Option<CheckReport>)
    ensures
        r.deep_view() == resource_files_finding(log@),
{
    let items = gather(&all_captures(PARSE_FAILED, log), 14, 64);
    assert(items.deep_view().len() == items.len());
    if items.len() > 0 {
        Some(report_broken_resource_files(&items))
    } else {
        None
    }
}

/// A drive without space left.
pub open spec fn disk_full_finding(log: Seq<char>) -> Option<ReportView> {
    if pattern_matches(NO_SPACE@, log) {
        Some(full_storage())
    } else {
        None
    }
}

/// A drive without space left.
pub fn disk_full(log: &str, _ctx: &EnvironmentContext) -> (r: Option<CheckReport>)
    ensures
        r.deep_view() == disk_full_finding(log@),
{
    if is_match(NO_SPACE, log) {
        Some(report_full_storage())
    } else {
        None
    }
}

/// An advisory where the loader is Quilt.
pub open spec fn quilt_finding(env: EnvironmentView) -> Option<ReportView> {
    if env.loader is Some && env.loader->0 is Quilt {
        Some(quilt_detected())
    } else {
        None
    }
}

/// An advisory where the loader is Quilt.
pub fn quilt(_log: &str, ctx: &EnvironmentContext) -> (r: Option<CheckReport>)
    ensures
        r.deep_view() == quilt_finding(ctx.deep_view()),
{
    match &ctx.loader {
        Some(ModLoader::Quilt(_)) => Some(report_quilt_detected()),
        _ => None,
    }
}

/// An advisory where the launcher is PolyMC.
pub open spec fn polymc_finding(env: EnvironmentView) -> Option<ReportView> {
    if env.launcher == Some(Launcher::PolyMC) {
        Some(polymc_detected())
    } else {
        None
    }
}

/// An advisory where the launcher is PolyMC.
pub fn polymc(_log: &str, ctx: &EnvironmentContext) -> (r: Option<CheckReport>)
    ensures
        r.deep_view() == polymc_finding(ctx.deep_view()),
{
    match &ctx.launcher {
        Some(Launcher::PolyMC) => Some(report_polymc_detected()),
        _ => None,
    }
}

/// OptiFabric among the known mods, or named by the log itself.
pub open spec fn optifabric_finding(log: Seq<char>, env: EnvironmentView) -> Option<ReportView> {
    if knows(env.known_mods, "optifabric"@) || pattern_matches(OPTIFABRIC_INCOMPATIBLE@, log)
        || pattern_matches(OPTIFABRIC_PACKAGE@, log) {
        Some(optifabric_detected())
    } else {
        None
    }
}

/// OptiFabric among the known mods, or named by the log itself.
pub fn optifabric(log: &str, ctx: &EnvironmentContext) -> (r: Option<CheckReport>)
    ensures
        r.deep_view() == optifabric_finding(log@, ctx.deep_view()),
{
    if has_known(&ctx.known_mods, "optifabric") || is_match(OPTIFABRIC_INCOMPATIBLE, log) || is_match(
        OPTIFABRIC_PACKAGE,
        log,
    ) {
        Some(report_optifabric_detected())
    } else {
        None
    }
}

/// An advisory where BCLib is among the known mods.
pub open spec fn bclib_finding(env: EnvironmentView) -> Option<ReportView> {
    if knows(env.known_mods, "bclib"@) {
        Some(bclib_detected())
    } else {
        None
    }
}

/// An advisory where BCLib is among the known mods.
pub fn bclib(_log: &str, ctx: &EnvironmentContext) -> (r: Option<CheckReport>)
    ensures
        r.deep_view() == bclib_finding(ctx.deep_view()),
{
    if has_known(&ctx.known_mods, "bclib") {
        Some(report_bclib_detected())
    } else {
        None
    }
}

/// An advisory where Feather Client is among the known mods.
pub open spec fn feather_finding(env: EnvironmentView) -> Option<ReportView> {
    if knows(env.known_mods, "feather"@) {
        Some(feather_detected())
    } else {
        None
    }
}

/// An advisory where Feather Client is among the known mods.
pub fn feather(_log: &str, ctx: &EnvironmentContext) -> (r: Option<CheckReport>)
    ensures
        r.deep_view() == feather_finding(ctx.deep_view()),
{
    if has_known(&ctx.known_mods, "feather") {
        Some(report_feather_detected())
    } else {
        None
    }
}

/// The generated mod that stands in a stack trace.
pub open spec fn mcreator_finding(log: Seq<char>) -> Option<ReportView> {
    match grabbed(grab_of(MCREATOR_FRAME@, log, MODID_SIZE as nat)) {
        Some(found) => Some(mcreator_issue(found)),
        None => None,
    }
}

/// The generated mod that stands in a stack trace.
pub fn mcreator(log: &str, _ctx: &EnvironmentContext) -> (r: Option<CheckReport>)
    ensures
        r.deep_view() == mcreator_finding(log@),
{
    match grab(MCREATOR_FRAME, log, MODID_SIZE) {
        Some(Some(found)) => Some(report_mcreator_issue(found.as_str())),
        _ => None,
    }
}

/// A renderer that is missing because Indium is.
pub open spec fn indium_finding(log: Seq<char>) -> Option<ReportView> {
    if pattern_matches(RENDERER_NULL@, log) {
        Some(missing_indium())
    } else {
        None
    }
}

/// A renderer that is missing because Indium is.
pub fn indium(log: &str, _ctx: &EnvironmentContext) -> (r: Option<CheckReport>)
    ensures
        r.deep_view() == indium_finding(log@),
{
    if is_match(RENDERER_NULL, log) {
        Some(report_missing_indium())
    } else {
        None
    }
}

/// The finding as a sequence of none or one.
pub open spec fn optional(finding: Option<ReportView>) -> Seq<ReportView> {
    match finding {
        Some(found) => seq![found],
        None => Seq::empty(),
    }
}

/// What all the checks find in a log and its environment, in the order in
/// which the checks are declared.
pub open spec fn findings_of(log: Seq<char>, env: EnvironmentView) -> Seq<ReportView> {
    Seq::<ReportView>::empty()
        + optional(crash_report_analysis_finding(log))
        + optional(dependency_generic_finding(log))
        + optional(crash_generic_finding(log))
        + optional(mixin_conflicts_finding(log))
        + optional(duck_fail_finding(log))
        + optional(class_missing_generic_finding(log))
        + optional(broken_modmenu_finding(log))
        + optional(frozen_registry_finding(log))
        + optional(failed_registry_finding(log))
        + optional(java_finding(log))
        + optional(jdk_finding(log, env))
        + optional(broken_cicada_config_finding(log))
        + optional(missing_field_finding(log))
        + optional(datapacks_failed_finding(log))
        + optional(resource_files_finding(log))
        + optional(disk_full_finding(log))
        + optional(quilt_finding(env))
        + optional(polymc_finding(env))
        + optional(optifabric_finding(log, env))
        + optional(bclib_finding(env))
        + optional(feather_finding(env))
        + optional(mcreator_finding(log))
        + optional(indium_finding(log))
}

/// Adds a finding to the list, if there is one.
pub fn push_finding(found: &mut Vec<CheckReport>, finding: Option<CheckReport>)
    ensures
        final(found).deep_view() == old(found).deep_view() + optional(finding.deep_view()),
{
    let ghost before = found.deep_view();
    match finding {
        Some(report) => {
            found.push(report);
            assert(found.deep_view() =~= before + seq![report.deep_view()]);
        },
        None => {
            assert(found.deep_view() =~= before + Seq::<ReportView>::empty());
        },
    }
}

/// Runs every check on the log and its environment and collects what they
/// find, in the order in which the checks are declared.
pub fn check_checks(log: &str, ctx: &EnvironmentContext) -> (r: Vec<CheckReport>)
    ensures
        r.deep_view() == findings_of(log@, ctx.deep_view()),
{
    let mut found: Vec<CheckReport> = Vec::new();
    assert(found.deep_view() =~= Seq::<ReportView>::empty());
    push_finding(&mut found, crash_report_analysis(log, ctx));
    push_finding(&mut found, dependency_generic(log, ctx));
    push_finding(&mut found, crash_generic(log, ctx));
    push_finding(&mut found, mixin_conflicts(log, ctx));
    push_finding(&mut found, duck_fail(log, ctx));
    push_finding(&mut found, class_missing_generic(log, ctx));
    push_finding(&mut found, broken_modmenu(log, ctx));
    push_finding(&mut found, frozen_registry(log, ctx));
    push_finding(&mut found, failed_registry(log, ctx));
    push_finding(&mut found, java(log, ctx));
    push_finding(&mut found, jdk(log, ctx));
    push_finding(&mut found, broken_cicada_config(log, ctx));
    push_finding(&mut found, missing_field(log, ctx));
    push_finding(&mut found, datapacks_failed(log, ctx));
    push_finding(&mut found, resource_files(log, ctx));
    push_finding(&mut found, disk_full(log, ctx));
    push_finding(&mut found, quilt(log, ctx));
    push_finding(&mut found, polymc(log, ctx));
    push_finding(&mut found, optifabric(log, ctx));
    push_finding(&mut found, bclib(log, ctx));
    push_finding(&mut found, feather(log, ctx));
    push_finding(&mut found, mcreator(log, ctx));
    push_finding(&mut found, indium(log, ctx));
    found
}

} // verus!
