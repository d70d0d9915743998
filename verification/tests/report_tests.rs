use repo_compliance::outcome::CheckResult;
use repo_compliance::report::{
    build_report, enabled_units, render_report, sort_units, unit_name, Report, UnitKind,
    UnitOutcomes, Verdict,
};

fn unit(name: &str, outcomes: Vec<CheckResult>) -> UnitOutcomes {
    UnitOutcomes { name: name.to_owned(), outcomes }
}

#[test]
fn zero_units_yield_success_and_empty_list() {
    let r: Report = build_report(Vec::new());
    assert_eq!(r.verdict, Verdict::Success);
    assert!(r.renderable.is_empty());
}

#[test]
fn two_units_ordered_by_name_with_failure_verdict() {
    // unit Y finishes first; the report still orders by unit name
    let units = vec![
        unit("unit_y", vec![CheckResult::Failure("missing file".to_owned())]),
        unit("unit_x", vec![CheckResult::Pass("ok".to_owned())]),
    ];
    let r = build_report(units);
    assert_eq!(r.verdict, Verdict::Failure);
    assert_eq!(r.renderable.len(), 2);
    assert_eq!(r.renderable[0].0, "unit_x");
    assert_eq!(r.renderable[0].1, CheckResult::Pass("ok".to_owned()));
    assert_eq!(r.renderable[1].0, "unit_y");
    assert_eq!(r.renderable[1].1, CheckResult::Failure("missing file".to_owned()));
}

#[test]
fn ignore_outcomes_never_render_and_do_not_flip_the_verdict() {
    let units = vec![
        unit("copilot_ignore", vec![CheckResult::Ignore]),
        unit("other", vec![CheckResult::Pass("fine".to_owned())]),
    ];
    let r = build_report(units);
    assert_eq!(r.verdict, Verdict::Success);
    assert_eq!(r.renderable.len(), 1);
    assert_eq!(r.renderable[0].0, "other");
}

#[test]
fn only_pass_and_ignore_yield_success() {
    let units = vec![
        unit("a", vec![CheckResult::Pass("one".to_owned()), CheckResult::Ignore]),
        unit("b", vec![CheckResult::Pass("two".to_owned())]),
    ];
    let r = build_report(units);
    assert_eq!(r.verdict, Verdict::Success);
    assert_eq!(r.renderable.len(), 2);
}

#[test]
fn one_failure_among_many_flips_the_verdict() {
    let units = vec![
        unit("a", vec![CheckResult::Pass("one".to_owned())]),
        unit("b", vec![CheckResult::Ignore, CheckResult::Failure("broken".to_owned())]),
        unit("c", vec![CheckResult::Pass("three".to_owned())]),
    ];
    let r = build_report(units);
    assert_eq!(r.verdict, Verdict::Failure);
    assert_eq!(r.renderable.len(), 3);
}

#[test]
fn failing_unit_does_not_hide_sibling_outcomes() {
    // a transport-style failure in one unit leaves the siblings' outcomes
    // in the report
    let units = vec![
        unit(
            "dependabot",
            vec![CheckResult::Failure(
                "Could not check if dependabot was enabled: Request failure.".to_owned(),
            )],
        ),
        unit("branch_protection", vec![CheckResult::Pass("Default Branch is Protected".to_owned())]),
    ];
    let r = build_report(units);
    assert_eq!(r.verdict, Verdict::Failure);
    assert_eq!(r.renderable.len(), 2);
    assert_eq!(r.renderable[0].0, "branch_protection");
    assert_eq!(r.renderable[1].0, "dependabot");
}

#[test]
fn units_with_equal_names_keep_all_outcomes() {
    let units = vec![
        unit("same", vec![CheckResult::Pass("one".to_owned())]),
        unit("same", vec![CheckResult::Pass("two".to_owned())]),
    ];
    let r = build_report(units);
    assert_eq!(r.verdict, Verdict::Success);
    assert_eq!(r.renderable.len(), 2);
}

#[test]
fn sort_units_orders_by_name_and_keeps_everything() {
    let units = vec![
        unit("charlie", vec![]),
        unit("alpha", vec![CheckResult::Ignore]),
        unit("bravo", vec![]),
    ];
    let sorted = sort_units(units);
    let names: Vec<&str> = sorted.iter().map(|u| u.name.as_str()).collect();
    assert_eq!(names, vec!["alpha", "bravo", "charlie"]);
}

#[test]
fn render_report_writes_one_line_per_outcome_and_the_verdict() {
    let units = vec![
        unit("unit_y", vec![CheckResult::Failure("missing file".to_owned())]),
        unit("unit_x", vec![CheckResult::Pass("ok".to_owned()), CheckResult::Ignore]),
    ];
    let r = build_report(units);
    let text = render_report(&r);
    assert_eq!(text, "\u{2705} ok\n\u{274c} missing file\n\n**RESULT: FAILURE**\n");
}

#[test]
fn render_report_success_line() {
    let r = build_report(vec![unit("a", vec![CheckResult::Pass("all good".to_owned())])]);
    let text = render_report(&r);
    assert_eq!(text, "\u{2705} all good\n\n**RESULT: SUCCESS**\n");
}

#[test]
fn unit_names_are_stable() {
    assert_eq!(unit_name(UnitKind::Dependabot), "dependabot");
    assert_eq!(unit_name(UnitKind::YellrWebhook), "yellr_webhook");
    assert_eq!(unit_name(UnitKind::CopilotIgnore), "copilot_ignore");
    assert_eq!(unit_name(UnitKind::RailsProjects), "rails_projects");
    assert_eq!(unit_name(UnitKind::BranchProtection), "branch_protection");
}

#[test]
fn enabled_units_follow_the_flags() {
    let inputs = repo_compliance::inputs::Inputs {
        repository_owner: "octo".to_owned(),
        repository: "octo/repo".to_owned(),
        token: "tok-one".to_owned(),
        sha: "abc123".to_owned(),
        access_token: "tok-one".to_owned(),
        step_summary_path: "summary.md".to_owned(),
        check_dependabot: true,
        check_yellr: false,
        check_bundler_audit: true,
        check_default_branch_protected: true,
    };
    let us = enabled_units(&inputs);
    assert_eq!(
        us,
        vec![
            UnitKind::Dependabot,
            UnitKind::CopilotIgnore,
            UnitKind::RailsProjects,
            UnitKind::BranchProtection,
        ]
    );
}
