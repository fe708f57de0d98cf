//! The findings that the checks can make, each with the text it shows.

use crate::report::{fixed_report, CheckReport, ReportView, Severity};
use vstd::prelude::*;
use vstd::string::*;

verus! {

pub const CRASH_WITHOUT_DETAILS_TITLE: &'static str = "Crash detected";

pub const CRASH_WITHOUT_DETAILS_TEXT: &'static str =
    "No details could be determined automatically.";

/// A crash of which the log tells no more than that it happened.
pub open spec fn crash_without_details() -> ReportView {
    fixed_report(CRASH_WITHOUT_DETAILS_TITLE@, CRASH_WITHOUT_DETAILS_TEXT@, Severity::High)
}

/// A crash of which the log tells no more than that it happened.
pub fn report_crash_without_details() -> (r: CheckReport)
    ensures
        r@ == crash_without_details(),
{
    CheckReport::fixed(CRASH_WITHOUT_DETAILS_TITLE, CRASH_WITHOUT_DETAILS_TEXT, Severity::High)
}

pub const WATCHDOG_CRASH_TITLE: &'static str = "Watchdog crash";

pub const WATCHDOG_CRASH_TEXT: &'static str =
    "The server watchdog has killed the game. This usually happens when a tick takes way longer than its supposed to, which may be a result of extreme lag.";

/// The server watchdog ended the game.
pub open spec fn watchdog_crash() -> ReportView {
    fixed_report(WATCHDOG_CRASH_TITLE@, WATCHDOG_CRASH_TEXT@, Severity::High)
}

/// The server watchdog ended the game.
pub fn report_watchdog_crash() -> (r: CheckReport)
    ensures
        r@ == watchdog_crash(),
{
    CheckReport::fixed(WATCHDOG_CRASH_TITLE, WATCHDOG_CRASH_TEXT, Severity::High)
}

pub const OUT_OF_MEMORY_TITLE: &'static str = "Out of memory";

pub const OUT_OF_MEMORY_TEXT: &'static str =
    "The game crashed because it ran out of memory. Consider allocating extra memory to the game or removing big content mods to save on memory usage.";

/// The game ran out of memory.
pub open spec fn out_of_memory() -> ReportView {
    fixed_report(OUT_OF_MEMORY_TITLE@, OUT_OF_MEMORY_TEXT@, Severity::High)
}

/// The game ran out of memory.
pub fn report_out_of_memory() -> (r: CheckReport)
    ensures
        r@ == out_of_memory(),
{
    CheckReport::fixed(OUT_OF_MEMORY_TITLE, OUT_OF_MEMORY_TEXT, Severity::High)
}

pub const CRITICAL_REGISTRY_FAILURE_TITLE: &'static str = "Critical registry failure";

pub const CRITICAL_REGISTRY_FAILURE_TEXT: &'static str =
    "One or more registries experienced critical loading failures, this may be related to broken resource files.";

/// Registries failed to load.
pub open spec fn critical_registry_failure() -> ReportView {
    fixed_report(CRITICAL_REGISTRY_FAILURE_TITLE@, CRITICAL_REGISTRY_FAILURE_TEXT@, Severity::High)
}

/// Registries failed to load.
pub fn report_critical_registry_failure() -> (r: CheckReport)
    ensures
        r@ == critical_registry_failure(),
{
    CheckReport::fixed(CRITICAL_REGISTRY_FAILURE_TITLE, CRITICAL_REGISTRY_FAILURE_TEXT, Severity::High)
}

pub const INCORRECT_JAVA_UNKNOWN_TITLE: &'static str = "Incorrect Java version";

pub const INCORRECT_JAVA_UNKNOWN_TEXT: &'static str =
    "A mod or Minecraft itself requires a different version of Java from the one that is available. You may have to [download](https://adoptium.net/temurin/releases/) a newer Java version and/or select it in your launcher.";

/// A Java release other than the one needed, of a class-file version that is not in the table.
pub open spec fn incorrect_java_unknown() -> ReportView {
    fixed_report(INCORRECT_JAVA_UNKNOWN_TITLE@, INCORRECT_JAVA_UNKNOWN_TEXT@, Severity::High)
}

/// A Java release other than the one needed, of a class-file version that is not in the table.
pub fn report_incorrect_java_unknown() -> (r: CheckReport)
    ensures
        r@ == incorrect_java_unknown(),
{
    CheckReport::fixed(INCORRECT_JAVA_UNKNOWN_TITLE, INCORRECT_JAVA_UNKNOWN_TEXT, Severity::High)
}

pub const JRE_INSTEAD_OF_JDK_UNKNOWN_TITLE: &'static str = "JRE used instead of JDK";

pub const JRE_INSTEAD_OF_JDK_UNKNOWN_TEXT: &'static str =
    "A mod or Minecraft itself requires the use of a JDK type distribution of Java instead of the used JRE type. You may have to [download](https://adoptium.net/temurin/releases/) a JDK type Java version and/or select it in your launcher.";

/// A runtime-only Java where a development kit is needed, its release unknown.
pub open spec fn jre_instead_of_jdk_unknown() -> ReportView {
    fixed_report(JRE_INSTEAD_OF_JDK_UNKNOWN_TITLE@, JRE_INSTEAD_OF_JDK_UNKNOWN_TEXT@, Severity::High)
}

/// A runtime-only Java where a development kit is needed, its release unknown.
pub fn report_jre_instead_of_jdk_unknown() -> (r: CheckReport)
    ensures
        r@ == jre_instead_of_jdk_unknown(),
{
    CheckReport::fixed(JRE_INSTEAD_OF_JDK_UNKNOWN_TITLE, JRE_INSTEAD_OF_JDK_UNKNOWN_TEXT, Severity::High)
}

pub const FIELD_MISSING_TITLE: &'static str = "Field missing error";

pub const FIELD_MISSING_TEXT: &'static str =
    "On the logical server some fields may be deleted by Fabric Loader when a mod defines them as client-only. Since this feature was broken before loader `0.15`, some mods may have implemented it incorrectly. See if there's an update for the mod in question, or try downgrading Fabric Loader.";

/// A field that is not there at run time.
pub open spec fn field_missing() -> ReportView {
    fixed_report(FIELD_MISSING_TITLE@, FIELD_MISSING_TEXT@, Severity::High)
}

/// A field that is not there at run time.
pub fn report_field_missing() -> (r: CheckReport)
    ensures
        r@ == field_missing(),
{
    CheckReport::fixed(FIELD_MISSING_TITLE, FIELD_MISSING_TEXT, Severity::High)
}

pub const DATAPACK_LOADING_FAILED_TITLE: &'static str = "Datapack loading failed";

pub const DATAPACK_LOADING_FAILED_TEXT: &'static str =
    "The server couldn't load datapack resources, further investigation is required.";

/// The server could not load its datapacks.
pub open spec fn datapack_loading_failed() -> ReportView {
    fixed_report(DATAPACK_LOADING_FAILED_TITLE@, DATAPACK_LOADING_FAILED_TEXT@, Severity::High)
}

/// The server could not load its datapacks.
pub fn report_datapack_loading_failed() -> (r: CheckReport)
    ensures
        r@ == datapack_loading_failed(),
{
    CheckReport::fixed(DATAPACK_LOADING_FAILED_TITLE, DATAPACK_LOADING_FAILED_TEXT, Severity::High)
}

pub const FULL_STORAGE_TITLE: &'static str = "Full storage";

pub const FULL_STORAGE_TEXT: &'static str =
    "The game cannot save certain data, your storage drive might be full.";

/// No space is left on the drive.
pub open spec fn full_storage() -> ReportView {
    fixed_report(FULL_STORAGE_TITLE@, FULL_STORAGE_TEXT@, Severity::High)
}

/// No space is left on the drive.
pub fn report_full_storage() -> (r: CheckReport)
    ensures
        r@ == full_storage(),
{
    CheckReport::fixed(FULL_STORAGE_TITLE, FULL_STORAGE_TEXT, Severity::High)
}

pub const QUILT_DETECTED_TITLE: &'static str = "Quilt detected";

pub const QUILT_DETECTED_TEXT: &'static str =
    "Many mod developers may not officially support Quilt. Consider switching to Fabric if you aren't using any Quilt-specific mods.";

/// The game runs on Quilt.
pub open spec fn quilt_detected() -> ReportView {
    fixed_report(QUILT_DETECTED_TITLE@, QUILT_DETECTED_TEXT@, Severity::Info)
}

/// The game runs on Quilt.
pub fn report_quilt_detected() -> (r: CheckReport)
    ensures
        r@ == quilt_detected(),
{
    CheckReport::fixed(QUILT_DETECTED_TITLE, QUILT_DETECTED_TEXT, Severity::Info)
}

pub const POLYMC_DETECTED_TITLE: &'static str = "PolyMC detected";

pub const POLYMC_DETECTED_TEXT: &'static str =
    "PolyMC is an outdated launcher maintained by a queerphobic team. Consider switching to [Prism Launcher](https://prismlauncher.org/), a fork with more features and better support.";

/// The game was started by PolyMC.
pub open spec fn polymc_detected() -> ReportView {
    fixed_report(POLYMC_DETECTED_TITLE@, POLYMC_DETECTED_TEXT@, Severity::Medium)
}

/// The game was started by PolyMC.
pub fn report_polymc_detected() -> (r: CheckReport)
    ensures
        r@ == polymc_detected(),
{
    CheckReport::fixed(POLYMC_DETECTED_TITLE, POLYMC_DETECTED_TEXT, Severity::Medium)
}

pub const OPTIFABRIC_DETECTED_TITLE: &'static str = "OptiFabric detected";

pub const OPTIFABRIC_DETECTED_TEXT: &'static str =
    "Optifine is known to cause problems with many mods on Fabric. If you're having strange issues or crashes, consider replacing it with some of the many available [alternatives](https://lambdaurora.dev/optifine_alternatives/).";

/// OptiFabric is installed.
pub open spec fn optifabric_detected() -> ReportView {
    fixed_report(OPTIFABRIC_DETECTED_TITLE@, OPTIFABRIC_DETECTED_TEXT@, Severity::High)
}

/// OptiFabric is installed.
pub fn report_optifabric_detected() -> (r: CheckReport)
    ensures
        r@ == optifabric_detected(),
{
    CheckReport::fixed(OPTIFABRIC_DETECTED_TITLE, OPTIFABRIC_DETECTED_TEXT, Severity::High)
}

pub const BCLIB_DETECTED_TITLE: &'static str = "BCLib detected";

pub const BCLIB_DETECTED_TEXT: &'static str =
    "BCLib is known to cause issues with some mods. If you're experiencing crashes or other problems, consider trying without it.";

/// BCLib is installed.
pub open spec fn bclib_detected() -> ReportView {
    fixed_report(BCLIB_DETECTED_TITLE@, BCLIB_DETECTED_TEXT@, Severity::Medium)
}

/// BCLib is installed.
pub fn report_bclib_detected() -> (r: CheckReport)
    ensures
        r@ == bclib_detected(),
{
    CheckReport::fixed(BCLIB_DETECTED_TITLE, BCLIB_DETECTED_TEXT, Severity::Medium)
}

pub const FEATHER_DETECTED_TITLE: &'static str = "Feather Client detected";

pub const FEATHER_DETECTED_TEXT: &'static str =
    "Feather Client is known to cause issues with some mods. If you're experiencing crashes or other problems, consider trying without it.";

/// Feather Client is installed.
pub open spec fn feather_detected() -> ReportView {
    fixed_report(FEATHER_DETECTED_TITLE@, FEATHER_DETECTED_TEXT@, Severity::Medium)
}

/// Feather Client is installed.
pub fn report_feather_detected() -> (r: CheckReport)
    ensures
        r@ == feather_detected(),
{
    CheckReport::fixed(FEATHER_DETECTED_TITLE, FEATHER_DETECTED_TEXT, Severity::Medium)
}

pub const MISSING_INDIUM_TITLE: &'static str = "Missing Indium";

pub const MISSING_INDIUM_TEXT: &'static str =
    "A mod is trying to make use of Fabric Rendering API, which may be missing when rendering mods such as Sodium are loaded. If you use Sodium, install [Indium](https://modrinth.com/mod/indium) to resolve this.";

/// The rendering API that Indium provides is missing.
pub open spec fn missing_indium() -> ReportView {
    fixed_report(MISSING_INDIUM_TITLE@, MISSING_INDIUM_TEXT@, Severity::High)
}

/// The rendering API that Indium provides is missing.
pub fn report_missing_indium() -> (r: CheckReport)
    ensures
        r@ == missing_indium(),
{
    CheckReport::fixed(MISSING_INDIUM_TITLE, MISSING_INDIUM_TEXT, Severity::High)
}

pub const CRASH_REPORT_TITLE: &'static str = "Crash report analysis";

/// A crash report's own summary: what the game was doing, and the error.
pub open spec fn crash_report(description: Seq<char>, error: Seq<char>) -> ReportView {
    ReportView {
        title: CRASH_REPORT_TITLE@,
        description: "Context: `"@
            + description
            + "`\n```\n"@
            + error
            + "\n```"@,
        severity: Severity::High,
    }
}

/// A crash report's own summary: what the game was doing, and the error.
pub fn report_crash_report(description: &str, error: &str) -> (r: CheckReport)
    ensures
        r@ == crash_report(description@, error@),
{
    let description = String::from_str("Context: `")
        .concat(description)
        .concat("`\n```\n")
        .concat(error)
        .concat("\n```");
    CheckReport::new(CRASH_REPORT_TITLE, description, Severity::High)
}

pub const CRASH_DETECTED_TITLE: &'static str = "Crash detected";

/// A crash whose first line of detail is known.
pub open spec fn crash_detected(error: Seq<char>) -> ReportView {
    ReportView {
        title: CRASH_DETECTED_TITLE@,
        description: "```"@
            + error
            + "```"@,
        severity: Severity::High,
    }
}

/// A crash whose first line of detail is known.
pub fn report_crash_detected(error: &str) -> (r: CheckReport)
    ensures
        r@ == crash_detected(error@),
{
    let description = String::from_str("```")
        .concat(error)
        .concat("```");
    CheckReport::new(CRASH_DETECTED_TITLE, description, Severity::High)
}

pub const MISSING_DEPENDENCY_TITLE: &'static str = "Missing dependency";

/// A mod that asks for another mod which is not installed.
pub open spec fn missing_dependency(dependent: Seq<char>, dependency: Seq<char>) -> ReportView {
    ReportView {
        title: MISSING_DEPENDENCY_TITLE@,
        description: "The `"@
            + dependent
            + "` mod needs `"@
            + dependency
            + "` to be installed, but it is missing."@,
        severity: Severity::High,
    }
}

/// A mod that asks for another mod which is not installed.
pub fn report_missing_dependency(dependent: &str, dependency: &str) -> (r: CheckReport)
    ensures
        r@ == missing_dependency(dependent@, dependency@),
{
    let description = String::from_str("The `")
        .concat(dependent)
        .concat("` mod needs `")
        .concat(dependency)
        .concat("` to be installed, but it is missing.");
    CheckReport::new(MISSING_DEPENDENCY_TITLE, description, Severity::High)
}

pub const EXPLICIT_INCOMPATIBILITY_TITLE: &'static str = "Explicit incompatibility";

/// A mod that declares itself incompatible with an installed version of another.
pub open spec fn explicit_incompatibility(mod_declared: Seq<char>, implicated_version: Seq<char>, mod_implicated: Seq<char>) -> ReportView {
    ReportView {
        title: EXPLICIT_INCOMPATIBILITY_TITLE@,
        description: "The `"@
            + mod_declared
            + "` mod is incompatible with version `"@
            + implicated_version
            + "` of the `"@
            + mod_implicated
            + "` mod. Remove either mod, or try updating `"@
            + mod_implicated
            + "` if possible."@,
        severity: Severity::High,
    }
}

/// A mod that declares itself incompatible with an installed version of another.
pub fn report_explicit_incompatibility(mod_declared: &str, implicated_version: &str, mod_implicated: &str) -> (r: CheckReport)
    ensures
        r@ == explicit_incompatibility(mod_declared@, implicated_version@, mod_implicated@),
{
    let description = String::from_str("The `")
        .concat(mod_declared)
        .concat("` mod is incompatible with version `")
        .concat(implicated_version)
        .concat("` of the `")
        .concat(mod_implicated)
        .concat("` mod. Remove either mod, or try updating `")
        .concat(mod_implicated)
        .concat("` if possible.");
    CheckReport::new(EXPLICIT_INCOMPATIBILITY_TITLE, description, Severity::High)
}

pub const INVALID_MIXIN_CONFIG_TITLE: &'static str = "Invalid mixin config";

/// A mod whose mixin configuration could not be read.
pub open spec fn invalid_mixin_config(mod_id: Seq<char>) -> ReportView {
    ReportView {
        title: INVALID_MIXIN_CONFIG_TITLE@,
        description: "The mod `"@
            + mod_id
            + "` is providing an invalid mixin config and cannot load in its current state, consider removing or updating it."@,
        severity: Severity::High,
    }
}

/// A mod whose mixin configuration could not be read.
pub fn report_invalid_mixin_config(mod_id: &str) -> (r: CheckReport)
    ensures
        r@ == invalid_mixin_config(mod_id@),
{
    let description = String::from_str("The mod `")
        .concat(mod_id)
        .concat("` is providing an invalid mixin config and cannot load in its current state, consider removing or updating it.");
    CheckReport::new(INVALID_MIXIN_CONFIG_TITLE, description, Severity::High)
}

pub const MIXIN_INJECT_FAILED_TITLE: &'static str = "Mixin inject failed";

/// A mixin that found no target to inject into.
pub open spec fn mixin_inject_failed(mixin: Seq<char>, mod_id: Seq<char>) -> ReportView {
    ReportView {
        title: MIXIN_INJECT_FAILED_TITLE@,
        description: "Mixin `"@
            + mixin
            + "` from mod `"@
            + mod_id
            + "` has failed to apply. It is possible that `"@
            + mod_id
            + "` is not compatible with this Minecraft version, consider double-checking its version."@,
        severity: Severity::High,
    }
}

/// A mixin that found no target to inject into.
pub fn report_mixin_inject_failed(mixin: &str, mod_id: &str) -> (r: CheckReport)
    ensures
        r@ == mixin_inject_failed(mixin@, mod_id@),
{
    let description = String::from_str("Mixin `")
        .concat(mixin)
        .concat("` from mod `")
        .concat(mod_id)
        .concat("` has failed to apply. It is possible that `")
        .concat(mod_id)
        .concat("` is not compatible with this Minecraft version, consider double-checking its version.");
    CheckReport::new(MIXIN_INJECT_FAILED_TITLE, description, Severity::High)
}

pub const MIXIN_CONFLICT_TITLE: &'static str = "Mixin conflict";

/// Two mods whose mixins collide.
pub open spec fn mixin_conflict(second: Seq<char>, first: Seq<char>) -> ReportView {
    ReportView {
        title: MIXIN_CONFLICT_TITLE@,
        description: "A mixin from the mod `"@
            + second
            + "` collided with one from `"@
            + first
            + "`, these mods may be incompatible."@,
        severity: Severity::High,
    }
}

/// Two mods whose mixins collide.
pub fn report_mixin_conflict(second: &str, first: &str) -> (r: CheckReport)
    ensures
        r@ == mixin_conflict(second@, first@),
{
    let description = String::from_str("A mixin from the mod `")
        .concat(second)
        .concat("` collided with one from `")
        .concat(first)
        .concat("`, these mods may be incompatible.");
    CheckReport::new(MIXIN_CONFLICT_TITLE, description, Severity::High)
}

pub const MIXIN_ERROR_TITLE: &'static str = "Mixin error";

/// A mixin failure of no more specific kind.
pub open spec fn mixin_error(mod_id: Seq<char>) -> ReportView {
    ReportView {
        title: MIXIN_ERROR_TITLE@,
        description: "The mod `"@
            + mod_id
            + "` has encountered a mixin error, this may be caused by a mismatch in Minecraft version or a mod incompatibility. Further investigation is required."@,
        severity: Severity::High,
    }
}

/// A mixin failure of no more specific kind.
pub fn report_mixin_error(mod_id: &str) -> (r: CheckReport)
    ensures
        r@ == mixin_error(mod_id@),
{
    let description = String::from_str("The mod `")
        .concat(mod_id)
        .concat("` has encountered a mixin error, this may be caused by a mismatch in Minecraft version or a mod incompatibility. Further investigation is required.");
    CheckReport::new(MIXIN_ERROR_TITLE, description, Severity::High)
}

pub const ENTRYPOINT_ERROR_TITLE: &'static str = "Entrypoint error";

/// A mod whose entrypoint threw.
pub open spec fn entrypoint_error(mod_id: Seq<char>) -> ReportView {
    ReportView {
        title: ENTRYPOINT_ERROR_TITLE@,
        description: "The mod `"@
            + mod_id
            + "` has encountered an error in it's entrypoint, though it may not have caused it. Further investigation is required."@,
        severity: Severity::High,
    }
}

/// A mod whose entrypoint threw.
pub fn report_entrypoint_error(mod_id: &str) -> (r: CheckReport)
    ensures
        r@ == entrypoint_error(mod_id@),
{
    let description = String::from_str("The mod `")
        .concat(mod_id)
        .concat("` has encountered an error in it's entrypoint, though it may not have caused it. Further investigation is required.");
    CheckReport::new(ENTRYPOINT_ERROR_TITLE, description, Severity::High)
}

pub const DUCK_INTERFACE_FAILED_TITLE: &'static str = "Duck interface failed";

/// An interface that a mixin should have added to a class and did not.
pub open spec fn duck_interface_failed(package: Seq<char>) -> ReportView {
    ReportView {
        title: DUCK_INTERFACE_FAILED_TITLE@,
        description: "A duck interface from the `"@
            + package
            + "` package has failed to properly inject, this may indicate a broken mod or compatibility issue."@,
        severity: Severity::High,
    }
}

/// An interface that a mixin should have added to a class and did not.
pub fn report_duck_interface_failed(package: &str) -> (r: CheckReport)
    ensures
        r@ == duck_interface_failed(package@),
{
    let description = String::from_str("A duck interface from the `")
        .concat(package)
        .concat("` package has failed to properly inject, this may indicate a broken mod or compatibility issue.");
    CheckReport::new(DUCK_INTERFACE_FAILED_TITLE, description, Severity::High)
}

pub const FROZEN_REGISTRY_ACCESSED_TITLE: &'static str = "Frozen registry accessed";

/// A late write to a registry that is already frozen.
pub open spec fn frozen_registry_accessed(namespace: Seq<char>) -> ReportView {
    ReportView {
        title: FROZEN_REGISTRY_ACCESSED_TITLE@,
        description: "A mod with the `"@
            + namespace
            + "` namespace tried to modify a frozen registry. This may indicate a broken mod or conflict."@,
        severity: Severity::High,
    }
}

/// A late write to a registry that is already frozen.
pub fn report_frozen_registry_accessed(namespace: &str) -> (r: CheckReport)
    ensures
        r@ == frozen_registry_accessed(namespace@),
{
    let description = String::from_str("A mod with the `")
        .concat(namespace)
        .concat("` namespace tried to modify a frozen registry. This may indicate a broken mod or conflict.");
    CheckReport::new(FROZEN_REGISTRY_ACCESSED_TITLE, description, Severity::High)
}

pub const INCORRECT_JAVA_TITLE: &'static str = "Incorrect Java version";

/// A Java release older than the one that is needed.
pub open spec fn incorrect_java(need: Seq<char>, has: Seq<char>) -> ReportView {
    ReportView {
        title: INCORRECT_JAVA_TITLE@,
        description: "A mod or Minecraft itself requires Java "@
            + need
            + " to be used, but an older version, Java "@
            + has
            + " is being used instead. You may have to [download](https://adoptium.net/temurin/releases/?version="@
            + need
            + ") a newer Java version and/or select it in your launcher."@,
        severity: Severity::High,
    }
}

/// A Java release older than the one that is needed.
pub fn report_incorrect_java(need: &str, has: &str) -> (r: CheckReport)
    ensures
        r@ == incorrect_java(need@, has@),
{
    let description = String::from_str("A mod or Minecraft itself requires Java ")
        .concat(need)
        .concat(" to be used, but an older version, Java ")
        .concat(has)
        .concat(" is being used instead. You may have to [download](https://adoptium.net/temurin/releases/?version=")
        .concat(need)
        .concat(") a newer Java version and/or select it in your launcher.");
    CheckReport::new(INCORRECT_JAVA_TITLE, description, Severity::High)
}

pub const JRE_INSTEAD_OF_JDK_TITLE: &'static str = "JRE used instead of JDK";

/// A runtime-only Java where a development kit of the given release is needed.
pub open spec fn jre_instead_of_jdk(version: Seq<char>) -> ReportView {
    ReportView {
        title: JRE_INSTEAD_OF_JDK_TITLE@,
        description: "A mod or Minecraft itself requires the use of a JDK type distribution of Java instead of the used JRE type. You may have to [download](https://adoptium.net/temurin/releases/?version="@
            + version
            + ") a JDK type Java version and/or select it in your launcher."@,
        severity: Severity::High,
    }
}

/// A runtime-only Java where a development kit of the given release is needed.
pub fn report_jre_instead_of_jdk(version: &str) -> (r: CheckReport)
    ensures
        r@ == jre_instead_of_jdk(version@),
{
    let description = String::from_str("A mod or Minecraft itself requires the use of a JDK type distribution of Java instead of the used JRE type. You may have to [download](https://adoptium.net/temurin/releases/?version=")
        .concat(version)
        .concat(") a JDK type Java version and/or select it in your launcher.");
    CheckReport::new(JRE_INSTEAD_OF_JDK_TITLE, description, Severity::High)
}

pub const BROKEN_CONFIG_FILE_TITLE: &'static str = "Broken config file";

/// A config file that was reset because it could not be parsed.
pub open spec fn broken_config_file(path: Seq<char>) -> ReportView {
    ReportView {
        title: BROKEN_CONFIG_FILE_TITLE@,
        description: "The config file below has failed to load. It has been backed up and reverted to its original state.\n```"@
            + path
            + "```"@,
        severity: Severity::Medium,
    }
}

/// A config file that was reset because it could not be parsed.
pub fn report_broken_config_file(path: &str) -> (r: CheckReport)
    ensures
        r@ == broken_config_file(path@),
{
    let description = String::from_str("The config file below has failed to load. It has been backed up and reverted to its original state.\n```")
        .concat(path)
        .concat("```");
    CheckReport::new(BROKEN_CONFIG_FILE_TITLE, description, Severity::Medium)
}

pub const MCREATOR_ISSUE_TITLE: &'static str = "MCreator mod issue";

/// A generated mod that stands in a stack trace.
pub open spec fn mcreator_issue(mod_id: Seq<char>) -> ReportView {
    ReportView {
        title: MCREATOR_ISSUE_TITLE@,
        description: "The mod `"@
            + mod_id
            + "` is being mentioned in an error message. This is a mod made using MCreator, a tool for easily making basic mods.\n\nMCreator is known to produce subpar code that might cause issues with other mods. Consider removing this mod to alleviate potential issues."@,
        severity: Severity::Medium,
    }
}

/// A generated mod that stands in a stack trace.
pub fn report_mcreator_issue(mod_id: &str) -> (r: CheckReport)
    ensures
        r@ == mcreator_issue(mod_id@),
{
    let description = String::from_str("The mod `")
        .concat(mod_id)
        .concat("` is being mentioned in an error message. This is a mod made using MCreator, a tool for easily making basic mods.\n\nMCreator is known to produce subpar code that might cause issues with other mods. Consider removing this mod to alleviate potential issues.");
    CheckReport::new(MCREATOR_ISSUE_TITLE, description, Severity::Medium)
}

/// One line for each item: a dash, the item between backticks, a line end.
pub open spec fn bullets(items: Seq<Seq<char>>) -> Seq<char>
    decreases items.len(),
{
    if items.len() == 0 {
        Seq::empty()
    } else {
        bullets(items.drop_last()) + "- `"@ + items.last() + "`\n"@
    }
}

/// One line for each pair: a dash and the two sides between backticks, with
/// a double arrow between them.
pub open spec fn pair_bullets(pairs: Seq<(Seq<char>, Seq<char>)>) -> Seq<char>
    decreases pairs.len(),
{
    if pairs.len() == 0 {
        Seq::empty()
    } else {
        pair_bullets(pairs.drop_last()) + "- `"@ + pairs.last().0 + "` <-> `"@ + pairs.last().1 + "`\n"@
    }
}

/// Writes one bullet line for each item.
pub fn bullet_list(items: &Vec<String>) -> (r: String)
    ensures
        r@ == bullets(items.deep_view()),
{
    let ghost all = items.deep_view();
    let mut text = String::new();
    let mut i: usize = 0;
    assert(all.take(0).len() == 0);
    while i < items.len()
        invariant
            i <= items.len(),
            all == items.deep_view(),
            text@ == bullets(all.take(i as int)),
        decreases items.len() - i,
    {
        proof {
            assert(all.take(i as int + 1).drop_last() =~= all.take(i as int));
            assert(all.take(i as int + 1).last() == items[i as int]@);
        }
        text = text.concat("- `").concat(items[i].as_str()).concat("`\n");
        i += 1;
    }
    assert(all.take(i as int) =~= all);
    text
}

/// Writes one bullet line for each pair.
pub fn pair_bullet_list(pairs: &Vec<(String, String)>) -> (r: String)
    ensures
        r@ == pair_bullets(pairs.deep_view()),
{
    let ghost all = pairs.deep_view();
    let mut text = String::new();
    let mut i: usize = 0;
    assert(all.take(0).len() == 0);
    while i < pairs.len()
        invariant
            i <= pairs.len(),
            all == pairs.deep_view(),
            text@ == pair_bullets(all.take(i as int)),
        decreases pairs.len() - i,
    {
        proof {
            assert(all.take(i as int + 1).drop_last() =~= all.take(i as int));
            assert(all.take(i as int + 1).last() == pairs[i as int].deep_view());
        }
        text = text.concat("- `").concat(pairs[i].0.as_str()).concat("` <-> `").concat(
            pairs[i].1.as_str(),
        ).concat("`\n");
        i += 1;
    }
    assert(all.take(i as int) =~= all);
    text
}

pub const CONFLICTING_MIXINS_TITLE: &'static str = "Mixin conflicts";

pub const CONFLICTING_MIXINS_HEAD: &'static str =
    "Mixins from the mods below are conflicting, this may cause unintentional behaviour or broken features.\n";

/// Mods whose redirects collide, pair by pair.
pub open spec fn conflicting_mixins(pairs: Seq<(Seq<char>, Seq<char>)>) -> ReportView {
    ReportView {
        title: CONFLICTING_MIXINS_TITLE@,
        description: CONFLICTING_MIXINS_HEAD@ + pair_bullets(pairs),
        severity: Severity::Medium,
    }
}

/// Mods whose redirects collide, pair by pair.
pub fn report_conflicting_mixins(pairs: &Vec<(String, String)>) -> (r: CheckReport)
    ensures
        r@ == conflicting_mixins(pairs.deep_view()),
{
    let list = pair_bullet_list(pairs);
    let description = String::from_str(CONFLICTING_MIXINS_HEAD).concat(list.as_str());
    CheckReport::new(CONFLICTING_MIXINS_TITLE, description, Severity::Medium)
}

pub const MISSING_CLASSES_TITLE: &'static str = "Missing classes";

pub const MISSING_CLASSES_HEAD: &'static str =
    "Classes from the packages below failed to load, this may be an indicator of missing dependencies or outdated mods.\n";

/// Packages with classes that could not be found.
pub open spec fn missing_classes(items: Seq<Seq<char>>) -> ReportView {
    ReportView {
        title: MISSING_CLASSES_TITLE@,
        description: MISSING_CLASSES_HEAD@ + bullets(items),
        severity: Severity::Medium,
    }
}

/// Packages with classes that could not be found.
pub fn report_missing_classes(items: &Vec<String>) -> (r: CheckReport)
    ensures
        r@ == missing_classes(items.deep_view()),
{
    let list = bullet_list(items);
    let description = String::from_str(MISSING_CLASSES_HEAD).concat(list.as_str());
    CheckReport::new(MISSING_CLASSES_TITLE, description, Severity::Medium)
}

pub const BROKEN_CONFIG_SCREENS_TITLE: &'static str = "Broken config screens";

pub const BROKEN_CONFIG_SCREENS_HEAD: &'static str =
    "The mods below have broken config screen implementations. You may need to install an additional dependency such as [Cloth Config](https://modrinth.com/mod/cloth-config) or [YACL](https://modrinth.com/mod/yacl) to be able to change their settings.\n";

/// Mods whose config screen cannot be built.
pub open spec fn broken_config_screens(items: Seq<Seq<char>>) -> ReportView {
    ReportView {
        title: BROKEN_CONFIG_SCREENS_TITLE@,
        description: BROKEN_CONFIG_SCREENS_HEAD@ + bullets(items),
        severity: Severity::Medium,
    }
}

/// Mods whose config screen cannot be built.
pub fn report_broken_config_screens(items: &Vec<String>) -> (r: CheckReport)
    ensures
        r@ == broken_config_screens(items.deep_view()),
{
    let list = bullet_list(items);
    let description = String::from_str(BROKEN_CONFIG_SCREENS_HEAD).concat(list.as_str());
    CheckReport::new(BROKEN_CONFIG_SCREENS_TITLE, description, Severity::Medium)
}

pub const BROKEN_RESOURCE_FILES_TITLE: &'static str = "Broken resource files";

pub const BROKEN_RESOURCE_FILES_HEAD: &'static str =
    "The resource or datapack files below failed to load. The mods they originate from might be out of date.\n";

/// Resource files that could not be parsed.
pub open spec fn broken_resource_files(items: Seq<Seq<char>>) -> ReportView {
    ReportView {
        title: BROKEN_RESOURCE_FILES_TITLE@,
        description: BROKEN_RESOURCE_FILES_HEAD@ + bullets(items),
        severity: Severity::Medium,
    }
}

/// Resource files that could not be parsed.
pub fn report_broken_resource_files(items: &Vec<String>) -> (r: CheckReport)
    ensures
        r@ == broken_resource_files(items.deep_view()),
{
    let list = bullet_list(items);
    let description = String::from_str(BROKEN_RESOURCE_FILES_HEAD).concat(list.as_str());
    CheckReport::new(BROKEN_RESOURCE_FILES_TITLE, description, Severity::Medium)
}

} // verus!
