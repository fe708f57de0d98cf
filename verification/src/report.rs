//! Findings and their ranking.

use vstd::prelude::*;
use vstd::string::*;

verus! {

/// How serious a finding is. The order is `Info < Medium < High`.
#[derive(PartialEq, Eq, PartialOrd, Ord, Clone, Copy, Debug, Structural)]
pub enum Severity {
    Info,
    Medium,
    High,
}

pub const EMOJI_NONE: &'static str = "<:severity_none:1246879605399228449>";

pub const EMOJI_MEDIUM: &'static str = "<:severity_medium:1246879606993190972>";

pub const EMOJI_HIGH: &'static str = "<:severity_high:1246879607869935678>";

impl Severity {
    /// The place of a severity in the order: 0, 1 or 2.
    pub open spec fn rank(self) -> nat {
        match self {
            Severity::Info => 0,
            Severity::Medium => 1,
            Severity::High => 2,
        }
    }

    /// The greater of two severities.
    pub open spec fn spec_max(self, other: Severity) -> Severity {
        if self.rank() >= other.rank() {
            self
        } else {
            other
        }
    }

    /// The colour a report of this severity is shown in, as `0xRRGGBB`.
    pub open spec fn color(self) -> u32 {
        match self {
            Severity::Info => 0x0021_9ebc,
            Severity::Medium => 0x00f7_7f00,
            Severity::High => 0x00d6_2828,
        }
    }

    /// The colour a report of this severity is shown in, as `0xRRGGBB`.
    pub fn get_color(&self) -> (r: u32)
        ensures
            r == self.color(),
    {
        match self {
            Severity::Info => 0x0021_9ebc,
            Severity::Medium => 0x00f7_7f00,
            Severity::High => 0x00d6_2828,
        }
    }

    /// The emoji tag shown in front of a finding's title.
    pub fn get_emoji(&self) -> (r: &'static str)
        ensures
            r@ == match *self {
                Severity::Info => EMOJI_NONE@,
                Severity::Medium => EMOJI_MEDIUM@,
                Severity::High => EMOJI_HIGH@,
            },
    {
        match self {
            Severity::Info => EMOJI_NONE,
            Severity::Medium => EMOJI_MEDIUM,
            Severity::High => EMOJI_HIGH,
        }
    }

    /// The greater of two severities.
    pub fn max(self, other: Severity) -> (r: Severity)
        ensures
            r == self.spec_max(other),
    {
        match (self, other) {
            (Severity::High, _) => self,
            (Severity::Medium, Severity::High) => other,
            (Severity::Medium, _) => self,
            (Severity::Info, _) => other,
        }
    }
}

/// One diagnostic result.
pub struct CheckReport {
    pub title: String,
    pub description: String,
    pub severity: Severity,
}

/// What a finding says, as plain text.
pub struct ReportView {
    pub title: Seq<char>,
    pub description: Seq<char>,
    pub severity: Severity,
}

impl View for CheckReport {
    type V = ReportView;

    open spec fn view(&self) -> ReportView {
        ReportView { title: self.title@, description: self.description@, severity: self.severity }
    }
}

impl DeepView for CheckReport {
    type V = ReportView;

    open spec fn deep_view(&self) -> ReportView {
        self@
    }
}

impl CheckReport {
    /// A finding with the given title, description and severity.
    pub fn new(title: &str, description: String, severity: Severity) -> (r: CheckReport)
        ensures
            r@ == (ReportView { title: title@, description: description@, severity }),
    {
        CheckReport { title: String::from_str(title), description, severity }
    }

    /// A finding whose description is a fixed text.
    pub fn fixed(title: &str, description: &str, severity: Severity) -> (r: CheckReport)
        ensures
            r@ == fixed_report(title@, description@, severity),
    {
        CheckReport { title: String::from_str(title), description: String::from_str(description), severity }
    }
}

/// The finding with the given title, description and severity.
pub open spec fn fixed_report(title: Seq<char>, description: Seq<char>, severity: Severity) -> ReportView {
    ReportView { title, description, severity }
}

/// The greatest severity among `findings`; `Severity::Info` where there are
/// none.
pub open spec fn max_severity(findings: Seq<ReportView>) -> Severity
    decreases findings.len(),
{
    if findings.len() == 0 {
        Severity::Info
    } else {
        max_severity(findings.drop_last()).spec_max(findings.last().severity)
    }
}

/// The greatest severity is an upper bound of every finding's severity, and
/// where there is a finding, one of them has it.
pub proof fn max_severity_is_maximum(findings: Seq<ReportView>)
    ensures
        forall|i: int| 0 <= i < findings.len() ==> (#[trigger] findings[i]).severity.rank() <= max_severity(findings).rank(),
        findings.len() > 0 ==> exists|i: int| 0 <= i < findings.len() && (#[trigger] findings[i]).severity == max_severity(findings),
        findings.len() == 0 ==> max_severity(findings) == Severity::Info,
    decreases findings.len(),
{
    if findings.len() > 0 {
        let front = findings.drop_last();
        max_severity_is_maximum(front);
        assert forall|i: int| 0 <= i < findings.len() implies (#[trigger] findings[i]).severity.rank() <= max_severity(findings).rank() by {
            if i < front.len() {
                assert(findings[i] == front[i]);
            }
        }
        if max_severity(findings) == findings.last().severity {
            assert(findings[findings.len() - 1].severity == max_severity(findings));
        } else {
            let i = choose|i: int| 0 <= i < front.len() && (#[trigger] front[i]).severity == max_severity(front);
            assert(findings[i] == front[i]);
        }
    }
}

/// The overall severity of a report: the greatest among its findings.
pub fn aggregate_severity(findings: &Vec<CheckReport>) -> (r: Severity)
    ensures
        r == max_severity(findings.deep_view()),
        forall|i: int| 0 <= i < findings.len() ==> (#[trigger] findings[i]).severity.rank() <= r.rank(),
        findings.len() > 0 ==> exists|i: int| 0 <= i < findings.len() && (#[trigger] findings[i]).severity == r,
        findings.len() == 0 ==> r == Severity::Info,
{
    let ghost all = findings.deep_view();
    let mut worst = Severity::Info;
    let mut i: usize = 0;
    while i < findings.len()
        invariant
            i <= findings.len(),
            all == findings.deep_view(),
            worst == max_severity(all.take(i as int)),
        decreases findings.len() - i,
    {
        proof {
            assert(all.take(i as int + 1).drop_last() =~= all.take(i as int));
            assert(all.take(i as int + 1).last() == findings[i as int]@);
        }
        worst = worst.max(findings[i].severity);
        i += 1;
    }
    proof {
        assert(all.take(i as int) =~= all);
        max_severity_is_maximum(all);
        assert forall|k: int| 0 <= k < findings.len() implies (#[trigger] findings[k]).severity.rank() <= worst.rank() by {
            assert(all[k].severity == findings[k].severity);
        }
        if findings.len() > 0 {
            let k = choose|k: int| 0 <= k < all.len() && (#[trigger] all[k]).severity == max_severity(all);
            assert(findings[k].severity == worst);
        }
    }
    worst
}

} // verus!
