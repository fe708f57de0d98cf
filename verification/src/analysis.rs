//! The whole analysis of one log: its environment, what the checks find in
//! it, and how serious that is overall.

use crate::checks::{check_checks, findings_of};
use crate::environment::{environment_of, get_environment_info, EnvironmentContext, MapStatus};
use crate::report::{aggregate_severity, max_severity, CheckReport, Severity};
use vstd::prelude::*;

verus! {

/// The result of analysing one log.
pub struct Analysis {
    pub environment: EnvironmentContext,
    pub findings: Vec<CheckReport>,
    pub severity: Severity,
}

pub const NO_HEADING: &'static str = "";

pub const INFORMATION_HEADING: &'static str = "\n**More Information:**\n";

pub const ISSUES_HEADING: &'static str = "\n**Potential Issues Detected:**\n";

/// Analyses a log. This never fails: a log that tells nothing gives an
/// empty environment, no findings and the least severity.
pub fn analyze(log: &str, map_status: MapStatus) -> (r: Analysis)
    ensures
        r.environment.deep_view() == environment_of(log@, map_status),
        r.environment.deep_view().wf(),
        r.findings.deep_view() == findings_of(log@, environment_of(log@, map_status)),
        r.severity == max_severity(r.findings.deep_view()),
        forall|i: int| 0 <= i < r.findings.len() ==> (#[trigger] r.findings[i]).severity.rank() <= r.severity.rank(),
        r.findings.len() > 0 ==> exists|i: int| 0 <= i < r.findings.len() && (#[trigger] r.findings[i]).severity == r.severity,
        r.findings.len() == 0 ==> r.severity == Severity::Info,
{
    let environment = get_environment_info(log, map_status);
    let findings = check_checks(log, &environment);
    let severity = aggregate_severity(&findings);
    Analysis { environment, findings, severity }
}

/// The line that stands between the environment and the findings of a
/// report: none where there are no findings, one for information where
/// none of them is more than that, else one for issues.
pub fn findings_heading(any_findings: bool, severity: Severity) -> (r: &'static str)
    ensures
        r@ == if !any_findings {
            NO_HEADING@
        } else if severity == Severity::Info {
            INFORMATION_HEADING@
        } else {
            ISSUES_HEADING@
        },
{
    if !any_findings {
        NO_HEADING
    } else {
        match severity {
            Severity::Info => INFORMATION_HEADING,
            _ => ISSUES_HEADING,
        }
    }
}

} // verus!
