use repo_compliance::checks::{
    bundler_audit_step, check_for_bundler_audit_yaml, copilot_visibility_outcome, hook_check,
    rails_projects_gate, verify_copilot_file, verify_default_branch_protected, verify_dependabot,
    verify_dependabot_enabled, verify_dependabot_yaml, verify_updates_yellr, BundlerAuditStep,
    HookContentType, HookEvent, WebhookConfig,
};
use repo_compliance::inspect::{file_check, grab_file, FileCheckResult, GrabFileResult};
use repo_compliance::outcome::CheckResult;

#[test]
fn status_classification_covers_every_case() {
    assert_eq!(file_check(Some(200)), FileCheckResult::Found);
    assert_eq!(file_check(Some(204)), FileCheckResult::Found);
    assert_eq!(file_check(Some(299)), FileCheckResult::Found);
    assert_eq!(file_check(Some(401)), FileCheckResult::AccessDenied);
    assert_eq!(file_check(Some(403)), FileCheckResult::AccessForbidden);
    assert_eq!(file_check(Some(404)), FileCheckResult::NotFound);
    assert_eq!(file_check(Some(500)), FileCheckResult::NotFound);
    assert_eq!(file_check(None), FileCheckResult::Error);
}

#[test]
fn grab_keeps_the_body_on_success() {
    match grab_file(Some((200, vec![1, 2, 3]))) {
        GrabFileResult::File(b) => assert_eq!(b, vec![1, 2, 3]),
        other => panic!("expected a file, got {:?}", other),
    }
    assert!(matches!(grab_file(Some((401, Vec::new()))), GrabFileResult::AccessDenied));
    assert!(matches!(grab_file(Some((403, Vec::new()))), GrabFileResult::AccessForbidden));
    assert!(matches!(grab_file(Some((404, Vec::new()))), GrabFileResult::NotFound));
    assert!(matches!(grab_file(None), GrabFileResult::Error));
}

#[test]
fn dependabot_yaml_not_found_names_the_file() {
    let o = verify_dependabot_yaml(&file_check(Some(404)));
    assert_eq!(
        o,
        CheckResult::Failure("Could not find a .github/dependabot.yml file.".to_owned())
    );
}

#[test]
fn dependabot_yaml_access_denied_is_distinguishable_from_not_found() {
    let denied = verify_dependabot_yaml(&file_check(Some(401)));
    let missing = verify_dependabot_yaml(&file_check(Some(404)));
    assert_eq!(
        denied,
        CheckResult::Failure(
            "Could not find a .github/dependabot.yml file: Access Denied".to_owned()
        )
    );
    assert_ne!(denied, missing);
}

#[test]
fn dependabot_yaml_transport_error_reports_request_failure() {
    // a transport-level error is distinguishable from "not found"
    let error = verify_dependabot_yaml(&FileCheckResult::Error);
    assert_eq!(
        error,
        CheckResult::Failure(
            "Could not check for a .github/dependabot.yml file: Request failure.".to_owned()
        )
    );
    assert_ne!(error, verify_dependabot_yaml(&FileCheckResult::NotFound));
}

#[test]
fn dependabot_yaml_found_passes() {
    assert_eq!(
        verify_dependabot_yaml(&FileCheckResult::Found),
        CheckResult::Pass("Found a `.github/dependabot.yml`".to_owned())
    );
    assert_eq!(
        verify_dependabot_yaml(&FileCheckResult::AccessForbidden),
        CheckResult::Failure(
            "Could not find a .github/dependabot.yml file: Access forbidden.".to_owned()
        )
    );
}

#[test]
fn dependabot_enabled_outcomes() {
    assert_eq!(
        verify_dependabot_enabled(Some(204)),
        CheckResult::Pass("Dependabot is enabled".to_owned())
    );
    assert_eq!(
        verify_dependabot_enabled(Some(401)),
        CheckResult::Failure("Could not check if dependabot was enabled: Access denied.".to_owned())
    );
    assert_eq!(
        verify_dependabot_enabled(Some(403)),
        CheckResult::Failure(
            "Could not check if dependabot was enabled: Access forbidden.".to_owned()
        )
    );
    assert_eq!(
        verify_dependabot_enabled(Some(404)),
        CheckResult::Failure("Dependabot not enabled.  Endpoint returned 404.".to_owned())
    );
}

#[test]
fn dependabot_enabled_transport_error_reports_request_failure() {
    assert_eq!(
        verify_dependabot_enabled(None),
        CheckResult::Failure("Could not check if dependabot was enabled: Request failure.".to_owned())
    );
}

#[test]
fn dependabot_pair_keeps_both_outcomes_in_order() {
    let os = verify_dependabot(Some(200), &FileCheckResult::NotFound);
    assert_eq!(os.len(), 2);
    assert_eq!(os[0], CheckResult::Pass("Dependabot is enabled".to_owned()));
    assert_eq!(
        os[1],
        CheckResult::Failure("Could not find a .github/dependabot.yml file.".to_owned())
    );
}

#[test]
fn public_repository_short_circuits_to_ignore() {
    assert_eq!(copilot_visibility_outcome(Some(false)), Some(CheckResult::Ignore));
    assert_eq!(copilot_visibility_outcome(Some(true)), None);
}

#[test]
fn failed_visibility_lookup_stays_a_local_failure() {
    assert_eq!(
        copilot_visibility_outcome(None),
        Some(CheckResult::Failure(
            "Could not check if the repository is private: Request failure.".to_owned()
        ))
    );
}

#[test]
fn copilot_file_outcomes() {
    assert_eq!(
        verify_copilot_file(&FileCheckResult::Found),
        CheckResult::Pass("Found a `.copilotignore` file for a private repository.".to_owned())
    );
    assert_eq!(
        verify_copilot_file(&FileCheckResult::AccessDenied),
        CheckResult::Failure(
            "Could not find a .copilotignore file for a private repository: Access Denied"
                .to_owned()
        )
    );
    assert_eq!(
        verify_copilot_file(&FileCheckResult::NotFound),
        CheckResult::Failure(
            "Could not find a .copilotignore file for a private repository.".to_owned()
        )
    );
    // a transport-level error is distinguishable from "not found"
    assert_eq!(
        verify_copilot_file(&FileCheckResult::Error),
        CheckResult::Failure(
            "Could not check for a .copilotignore file for a private repository: Request failure."
                .to_owned()
        )
    );
}

#[test]
fn bundler_audit_decision_table() {
    assert!(matches!(
        bundler_audit_step(&GrabFileResult::NotFound, &GrabFileResult::NotFound),
        BundlerAuditStep::Done(CheckResult::Ignore)
    ));
    assert!(matches!(
        bundler_audit_step(&GrabFileResult::File(Vec::new()), &GrabFileResult::NotFound),
        BundlerAuditStep::LookupConfig
    ));
    assert!(matches!(
        bundler_audit_step(&GrabFileResult::NotFound, &GrabFileResult::File(Vec::new())),
        BundlerAuditStep::LookupConfig
    ));
    match bundler_audit_step(&GrabFileResult::AccessDenied, &GrabFileResult::NotFound) {
        BundlerAuditStep::Done(o) => assert_eq!(
            o,
            CheckResult::Failure("Could not check for a Gemfile.lock file: Access denied.".to_owned())
        ),
        _ => panic!("expected a finished step"),
    }
    match bundler_audit_step(&GrabFileResult::AccessForbidden, &GrabFileResult::Error) {
        BundlerAuditStep::Done(o) => assert_eq!(
            o,
            CheckResult::Failure(
                "Could not check for a Gemfile.lock file: Access forbidden.".to_owned()
            )
        ),
        _ => panic!("expected a finished step"),
    }
    match bundler_audit_step(&GrabFileResult::Error, &GrabFileResult::NotFound) {
        BundlerAuditStep::Done(o) => assert_eq!(
            o,
            CheckResult::Failure("Could not check if we need bundler audit: Request failure.".to_owned())
        ),
        _ => panic!("expected a finished step"),
    }
}

#[test]
fn bundler_audit_yaml_outcomes() {
    assert_eq!(
        check_for_bundler_audit_yaml(&FileCheckResult::Found),
        CheckResult::Pass("Found a `.bundler-audit.yml` file.".to_owned())
    );
    assert_eq!(
        check_for_bundler_audit_yaml(&FileCheckResult::NotFound),
        CheckResult::Failure("Could not find a `.bundler-audit.yml` file.".to_owned())
    );
    assert_eq!(
        check_for_bundler_audit_yaml(&FileCheckResult::Error),
        CheckResult::Failure("Could not find a `.bundler-audit.yml` file: request failed.".to_owned())
    );
}

#[test]
fn branch_protection_passes_only_when_the_default_branch_is_protected() {
    let default = Some("main".to_owned());
    let protected = Some(vec!["dev".to_owned(), "main".to_owned()]);
    assert_eq!(
        verify_default_branch_protected(&default, &protected),
        CheckResult::Pass("Default Branch is Protected".to_owned())
    );
    let unprotected = Some(vec!["dev".to_owned(), "release".to_owned()]);
    assert_eq!(
        verify_default_branch_protected(&default, &unprotected),
        CheckResult::Failure("Default Branch is not Protected".to_owned())
    );
    assert_eq!(
        verify_default_branch_protected(&default, &Some(Vec::new())),
        CheckResult::Failure("Default Branch is not Protected".to_owned())
    );
}

#[test]
fn failed_branch_lookups_stay_local_failures() {
    assert_eq!(
        verify_default_branch_protected(&None, &None),
        CheckResult::Failure("Could not determine the default branch: Request failure.".to_owned())
    );
    assert_eq!(
        verify_default_branch_protected(&Some("main".to_owned()), &None),
        CheckResult::Failure("Could not list protected branches: Request failure.".to_owned())
    );
}

#[test]
fn rails_unit_skips_its_lookups_when_the_flag_is_off() {
    assert_eq!(rails_projects_gate(false), Some(Vec::new()));
    assert_eq!(rails_projects_gate(true), None);
}

fn good_hook() -> WebhookConfig {
    WebhookConfig {
        url: "https://yellr.app/webhook".to_owned(),
        content_type: Some(HookContentType::Json),
        active: true,
        events: vec![
            HookEvent::Create,
            HookEvent::Delete,
            HookEvent::PullRequestReview,
            HookEvent::PullRequest,
            HookEvent::Push,
            HookEvent::WorkflowRun,
        ],
    }
}

#[test]
fn hook_check_accepts_a_fully_configured_hook() {
    assert!(hook_check(&good_hook()));
    let mut other_url = good_hook();
    other_url.url =
        "https://us-central1-active-branches-report.cloudfunctions.net/webhook".to_owned();
    assert!(hook_check(&other_url));
}

#[test]
fn hook_check_rejects_any_missing_piece() {
    let mut wrong_url = good_hook();
    wrong_url.url = "https://example.com/webhook".to_owned();
    assert!(!hook_check(&wrong_url));

    let mut not_json = good_hook();
    not_json.content_type = Some(HookContentType::Form);
    assert!(!hook_check(&not_json));

    let mut no_content_type = good_hook();
    no_content_type.content_type = None;
    assert!(!hook_check(&no_content_type));

    let mut inactive = good_hook();
    inactive.active = false;
    assert!(!hook_check(&inactive));

    let mut missing_event = good_hook();
    missing_event.events.retain(|e| *e != HookEvent::Push);
    assert!(!hook_check(&missing_event));
}

#[test]
fn yellr_outcomes() {
    let os = verify_updates_yellr(&None);
    assert_eq!(os.len(), 1);
    assert_eq!(
        os[0],
        CheckResult::Failure("Could not check if repository reports to Yellr: Request failure.".to_owned())
    );

    let os = verify_updates_yellr(&Some(vec![good_hook()]));
    assert_eq!(os, vec![CheckResult::Pass("Repository Reports to Yellr correctly".to_owned())]);

    let mut bad = good_hook();
    bad.active = false;
    let os = verify_updates_yellr(&Some(vec![bad]));
    assert_eq!(os, vec![CheckResult::Failure("Repository does not report to Yellr.".to_owned())]);

    let os = verify_updates_yellr(&Some(Vec::new()));
    assert_eq!(os, vec![CheckResult::Failure("Repository does not report to Yellr.".to_owned())]);
}
