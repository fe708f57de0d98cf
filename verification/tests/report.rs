use log_checking::analysis::{analyze, findings_heading};
use log_checking::environment::MapStatus;
use log_checking::findings::{
    bullet_list, pair_bullet_list, report_crash_report, report_incorrect_java, report_missing_classes,
    report_missing_dependency, report_quilt_detected,
};
use log_checking::pattern::{all_captures, capture_text, captures, grab, is_match, same_text, truncate};
use log_checking::report::{aggregate_severity, CheckReport, Severity};

#[test]
fn severity_colors_and_emoji() {
    assert_eq!(Severity::Info.get_color(), 0x219ebc);
    assert_eq!(Severity::Medium.get_color(), 0xf77f00);
    assert_eq!(Severity::High.get_color(), 0xd62828);
    assert_eq!(Severity::Info.get_emoji(), "<:severity_none:1246879605399228449>");
    assert_eq!(Severity::Medium.get_emoji(), "<:severity_medium:1246879606993190972>");
    assert_eq!(Severity::High.get_emoji(), "<:severity_high:1246879607869935678>");
}

#[test]
fn severity_order() {
    assert!(Severity::Info < Severity::Medium);
    assert!(Severity::Medium < Severity::High);
    assert_eq!(Severity::Info.max(Severity::High), Severity::High);
    assert_eq!(Severity::High.max(Severity::Medium), Severity::High);
    assert_eq!(Severity::Medium.max(Severity::Info), Severity::Medium);
    assert_eq!(Severity::Info.max(Severity::Info), Severity::Info);
}

fn finding(severity: Severity) -> CheckReport {
    CheckReport::new("t", "d".to_string(), severity)
}

#[test]
fn aggregate_is_the_greatest_severity() {
    assert_eq!(aggregate_severity(&vec![]), Severity::Info);
    assert_eq!(aggregate_severity(&vec![finding(Severity::Info)]), Severity::Info);
    assert_eq!(aggregate_severity(&vec![finding(Severity::Medium), finding(Severity::Info)]), Severity::Medium);
    assert_eq!(
        aggregate_severity(&vec![finding(Severity::Medium), finding(Severity::High), finding(Severity::Info)]),
        Severity::High
    );
}

#[test]
fn analysis_severity_is_that_of_its_findings() {
    let log = "PolyMC version: 1.4\nLoading Minecraft 1.20.1 with Quilt Loader 0.23.1\n";
    let analysis = analyze(log, MapStatus::Unmapped);
    assert_eq!(analysis.findings.len(), 2);
    assert_eq!(analysis.severity, Severity::Medium);
    let worst = analysis.findings.iter().map(|f| f.severity).max().unwrap();
    assert_eq!(analysis.severity, worst);
    let only_quilt = analyze("Loading Minecraft 1.20.1 with Quilt Loader 0.23.1\n", MapStatus::Unmapped);
    assert_eq!(only_quilt.findings.len(), 1);
    assert_eq!(only_quilt.severity, Severity::Info);
}

#[test]
fn headings() {
    assert_eq!(findings_heading(false, Severity::Info), "");
    assert_eq!(findings_heading(false, Severity::High), "");
    assert_eq!(findings_heading(true, Severity::Info), "\n**More Information:**\n");
    assert_eq!(findings_heading(true, Severity::Medium), "\n**Potential Issues Detected:**\n");
    assert_eq!(findings_heading(true, Severity::High), "\n**Potential Issues Detected:**\n");
}

#[test]
fn truncate_marks_a_cut() {
    assert_eq!(truncate("abcdefghij", 8), "abcde...");
    assert_eq!(truncate("abcdefgh", 8), "abcdefgh");
    assert_eq!(truncate("", 8), "");
    assert_eq!(truncate("abcd", 3), "...");
    assert_eq!(truncate("abcd", 2), "...");
    assert_eq!(truncate("\u{e5}\u{e5}\u{e5}\u{e5}\u{e5}\u{e5}", 5), "\u{e5}\u{e5}...");
}

#[test]
fn searches_go_through_the_expression() {
    assert!(is_match(r"a+b", "xxaaab"));
    assert!(!is_match(r"a+b", "a+b"));
    assert!(!is_match(r"(unclosed", "(unclosed"));
    assert!(same_text("abc", "abc"));
    assert!(!same_text("abc", "abd"));
}

#[test]
fn captures_hand_out_groups() {
    let groups = captures(r"(\w+)@(\w+)(\.org)?", "mail me: me@example now").expect("a match");
    assert_eq!(groups.len(), 4);
    assert_eq!(groups[0].as_deref(), Some("me@example"));
    assert_eq!(groups[1].as_deref(), Some("me"));
    assert_eq!(groups[2].as_deref(), Some("example"));
    assert_eq!(groups[3], None);
    assert_eq!(capture_text(&groups, 1, 16), "me");
    assert_eq!(capture_text(&groups, 2, 6), "exa...");
    assert_eq!(capture_text(&groups, 3, 16), "");
    assert_eq!(capture_text(&groups, 9, 16), "");
    assert!(captures(r"(\d+)", "no digits").is_none());
    assert!(captures(r"(\d+", "12").is_none());
}

#[test]
fn grab_takes_group_one() {
    assert_eq!(grab(r"id=(\w+)", "id=abcdef", 5), Some(Some("ab...".to_string())));
    assert_eq!(grab(r"id=\w+", "id=abcdef", 5), Some(None));
    assert_eq!(grab(r"id=(\w+)", "nothing", 5), None);
}

#[test]
fn all_captures_are_in_text_order() {
    let found = all_captures(r"(\d)-(\w)", "1-a 2-b 3-c");
    assert_eq!(found.len(), 3);
    assert_eq!(found[0][1].as_deref(), Some("1"));
    assert_eq!(found[2][2].as_deref(), Some("c"));
    assert!(all_captures(r"(\d", "1-a").is_empty());
}

#[test]
fn bullet_lists() {
    assert_eq!(bullet_list(&vec![]), "");
    assert_eq!(bullet_list(&vec!["a".to_string(), "b".to_string()]), "- `a`\n- `b`\n");
    assert_eq!(
        pair_bullet_list(&vec![("a".to_string(), "b".to_string()), ("c".to_string(), "d".to_string())]),
        "- `a` <-> `b`\n- `c` <-> `d`\n"
    );
}

#[test]
fn findings_are_written_out() {
    let dep = report_missing_dependency("a", "b");
    assert_eq!(dep.title, "Missing dependency");
    assert_eq!(dep.description, "The `a` mod needs `b` to be installed, but it is missing.");
    assert_eq!(dep.severity, Severity::High);
    let crash = report_crash_report("ctx", "err");
    assert_eq!(crash.description, "Context: `ctx`\n```\nerr\n```");
    let java = report_incorrect_java("21", "17");
    assert!(java.description.starts_with("A mod or Minecraft itself requires Java 21 to be used, but an older version, Java 17 is being used instead."));
    assert!(java.description.contains("?version=21)"));
    let classes = report_missing_classes(&vec!["x.y".to_string()]);
    assert!(classes.description.ends_with("outdated mods.\n- `x.y`\n"));
    assert_eq!(classes.severity, Severity::Medium);
    assert_eq!(report_quilt_detected().severity, Severity::Info);
}
