//! The decision core of every compliance rule: each function turns the plain
//! result of the rule's remote lookups into its outcome, and the contract
//! pins the outcome, message included, for every possible lookup result.

use vstd::prelude::*;

use crate::inspect::{FileCheckResult, GrabFileResult};
use crate::outcome::{CheckResult, OutcomeModel};
use crate::text::{dec_digits, u16_to_dec};

verus! {

/// The outcome of the dependency-update configuration rule, decided by what
/// a presence lookup of `.github/dependabot.yml` found.
pub open spec fn spec_dependabot_yaml_outcome(r: FileCheckResult) -> OutcomeModel {
    match r {
        FileCheckResult::Found => OutcomeModel::Pass("Found a `.github/dependabot.yml`"@),
        FileCheckResult::AccessDenied => OutcomeModel::Failure(
            "Could not find a .github/dependabot.yml file: Access Denied"@,
        ),
        FileCheckResult::AccessForbidden => OutcomeModel::Failure(
            "Could not find a .github/dependabot.yml file: Access forbidden."@,
        ),
        FileCheckResult::NotFound => OutcomeModel::Failure(
            "Could not find a .github/dependabot.yml file."@,
        ),
        FileCheckResult::Error => OutcomeModel::Failure(
            "Could not check for a .github/dependabot.yml file: Request failure."@,
        ),
    }
}

/// Decides the dependency-update configuration rule.
pub fn verify_dependabot_yaml(r: &FileCheckResult) -> (o: CheckResult)
    ensures
        o@ == spec_dependabot_yaml_outcome(*r),
{
    match r {
        FileCheckResult::Found => CheckResult::Pass("Found a `.github/dependabot.yml`".to_owned()),
        FileCheckResult::AccessDenied => CheckResult::Failure(
            "Could not find a .github/dependabot.yml file: Access Denied".to_owned(),
        ),
        FileCheckResult::AccessForbidden => CheckResult::Failure(
            "Could not find a .github/dependabot.yml file: Access forbidden.".to_owned(),
        ),
        FileCheckResult::NotFound => CheckResult::Failure(
            "Could not find a .github/dependabot.yml file.".to_owned(),
        ),
        FileCheckResult::Error => CheckResult::Failure(
            "Could not check for a .github/dependabot.yml file: Request failure.".to_owned(),
        ),
    }
}

/// The outcome of the dependency-alert feature rule, decided by the status
/// of the feature lookup; no status at all stands for a transport failure.
pub open spec fn spec_dependabot_enabled_outcome(status: Option<u16>) -> OutcomeModel {
    match status {
        Option::None => OutcomeModel::Failure(
            "Could not check if dependabot was enabled: Request failure."@,
        ),
        Option::Some(s) => if 200 <= s < 300 {
            OutcomeModel::Pass("Dependabot is enabled"@)
        } else if s == 401 {
            OutcomeModel::Failure("Could not check if dependabot was enabled: Access denied."@)
        } else if s == 403 {
            OutcomeModel::Failure("Could not check if dependabot was enabled: Access forbidden."@)
        } else {
            OutcomeModel::Failure(
                "Dependabot not enabled.  Endpoint returned "@ + dec_digits(s as nat) + "."@,
            )
        },
    }
}

/// Decides the dependency-alert feature rule.
pub fn verify_dependabot_enabled(status: Option<u16>) -> (o: CheckResult)
    ensures
        o@ == spec_dependabot_enabled_outcome(status),
{
    match status {
        Option::None => CheckResult::Failure(
            "Could not check if dependabot was enabled: Request failure.".to_owned(),
        ),
        Option::Some(s) => if 200 <= s && s < 300 {
            CheckResult::Pass("Dependabot is enabled".to_owned())
        } else if s == 401 {
            CheckResult::Failure(
                "Could not check if dependabot was enabled: Access denied.".to_owned(),
            )
        } else if s == 403 {
            CheckResult::Failure(
                "Could not check if dependabot was enabled: Access forbidden.".to_owned(),
            )
        } else {
            let mut m = "Dependabot not enabled.  Endpoint returned ".to_owned();
            let d = u16_to_dec(s);
            m.append(d.as_str());
            m.append(".");
            CheckResult::Failure(m)
        },
    }
}

/// The two outcomes of the dependency-update rule pair: the feature lookup
/// first, the configuration-file lookup second.
pub fn verify_dependabot(enabled_status: Option<u16>, yaml: &FileCheckResult) -> (os: Vec<
    CheckResult,
>)
    ensures
        os@.len() == 2,
        os@[0]@ == spec_dependabot_enabled_outcome(enabled_status),
        os@[1]@ == spec_dependabot_yaml_outcome(*yaml),
{
    let mut os: Vec<CheckResult> = Vec::new();
    os.push(verify_dependabot_enabled(enabled_status));
    os.push(verify_dependabot_yaml(yaml));
    os
}

/// The applicability gate of the assistant-exclusion rule: the rule only
/// applies to a private repository, so a public one short-circuits to a
/// single outcome that does not apply, and a visibility lookup that failed
/// short-circuits to one local failure.
pub fn copilot_visibility_outcome(private: Option<bool>) -> (r: Option<CheckResult>)
    ensures
        match private {
            Option::Some(true) => r is None,
            Option::Some(false) => r matches Some(o) && o@ is Ignore,
            Option::None => r matches Some(o) && o@ == OutcomeModel::Failure(
                "Could not check if the repository is private: Request failure."@,
            ),
        },
{
    match private {
        Option::Some(true) => None,
        Option::Some(false) => Some(CheckResult::Ignore),
        Option::None => Some(
            CheckResult::Failure(
                "Could not check if the repository is private: Request failure.".to_owned(),
            ),
        ),
    }
}

/// The outcome of the assistant-exclusion rule for a private repository,
/// decided by what a presence lookup of `.copilotignore` found.
pub open spec fn spec_copilot_file_outcome(r: FileCheckResult) -> OutcomeModel {
    match r {
        FileCheckResult::Found => OutcomeModel::Pass(
            "Found a `.copilotignore` file for a private repository."@,
        ),
        FileCheckResult::AccessDenied => OutcomeModel::Failure(
            "Could not find a .copilotignore file for a private repository: Access Denied"@,
        ),
        FileCheckResult::AccessForbidden => OutcomeModel::Failure(
            "Could not find a .copilotignore file for a private repository: Access forbidden."@,
        ),
        FileCheckResult::NotFound => OutcomeModel::Failure(
            "Could not find a .copilotignore file for a private repository."@,
        ),
        FileCheckResult::Error => OutcomeModel::Failure(
            "Could not check for a .copilotignore file for a private repository: Request failure."@,
        ),
    }
}

/// Decides the assistant-exclusion rule for a private repository.
pub fn verify_copilot_file(r: &FileCheckResult) -> (o: CheckResult)
    ensures
        o@ == spec_copilot_file_outcome(*r),
{
    match r {
        FileCheckResult::Found => CheckResult::Pass(
            "Found a `.copilotignore` file for a private repository.".to_owned(),
        ),
        FileCheckResult::AccessDenied => CheckResult::Failure(
            "Could not find a .copilotignore file for a private repository: Access Denied"
                .to_owned(),
        ),
        FileCheckResult::AccessForbidden => CheckResult::Failure(
            "Could not find a .copilotignore file for a private repository: Access forbidden."
                .to_owned(),
        ),
        FileCheckResult::NotFound => CheckResult::Failure(
            "Could not find a .copilotignore file for a private repository.".to_owned(),
        ),
        FileCheckResult::Error => CheckResult::Failure(
            "Could not check for a .copilotignore file for a private repository: Request failure."
                .to_owned(),
        ),
    }
}

/// What the audit-configuration rule does next after the two content
/// lookups of `Gemfile` and `Gemfile.lock`: the rule does not apply when
/// both are absent, one configuration lookup follows when either file
/// exists, and anything else ends the rule at once.
pub enum BundlerAuditStep {
    Done(CheckResult),
    LookupConfig,
}

/// Mathematical model of a `BundlerAuditStep`.
pub enum BundlerStepModel {
    Done(OutcomeModel),
    LookupConfig,
}

impl View for BundlerAuditStep {
    type V = BundlerStepModel;

    open spec fn view(&self) -> BundlerStepModel {
        match self {
            BundlerAuditStep::Done(o) => BundlerStepModel::Done(o@),
            BundlerAuditStep::LookupConfig => BundlerStepModel::LookupConfig,
        }
    }
}

/// The step the audit-configuration rule takes, decided by the content
/// lookups of `Gemfile` (first) and `Gemfile.lock` (second).
pub open spec fn spec_bundler_audit_step(
    gem: GrabFileResult,
    lock: GrabFileResult,
) -> BundlerStepModel {
    if gem is NotFound && lock is NotFound {
        BundlerStepModel::Done(OutcomeModel::Ignore)
    } else if gem is File || lock is File {
        BundlerStepModel::LookupConfig
    } else if gem is AccessDenied {
        BundlerStepModel::Done(
            OutcomeModel::Failure("Could not check for a Gemfile.lock file: Access denied."@),
        )
    } else if gem is AccessForbidden {
        BundlerStepModel::Done(
            OutcomeModel::Failure("Could not check for a Gemfile.lock file: Access forbidden."@),
        )
    } else {
        BundlerStepModel::Done(
            OutcomeModel::Failure("Could not check if we need bundler audit: Request failure."@),
        )
    }
}

/// Decides what the audit-configuration rule does after its two content
/// lookups.
pub fn bundler_audit_step(gem: &GrabFileResult, lock: &GrabFileResult) -> (r: BundlerAuditStep)
    ensures
        r@ == spec_bundler_audit_step(*gem, *lock),
{
    match (gem, lock) {
        (GrabFileResult::NotFound, GrabFileResult::NotFound) => BundlerAuditStep::Done(
            CheckResult::Ignore,
        ),
        (GrabFileResult::File(_), _) => BundlerAuditStep::LookupConfig,
        (_, GrabFileResult::File(_)) => BundlerAuditStep::LookupConfig,
        (GrabFileResult::AccessDenied, _) => BundlerAuditStep::Done(
            CheckResult::Failure(
                "Could not check for a Gemfile.lock file: Access denied.".to_owned(),
            ),
        ),
        (GrabFileResult::AccessForbidden, _) => BundlerAuditStep::Done(
            CheckResult::Failure(
                "Could not check for a Gemfile.lock file: Access forbidden.".to_owned(),
            ),
        ),
        _ => BundlerAuditStep::Done(
            CheckResult::Failure(
                "Could not check if we need bundler audit: Request failure.".to_owned(),
            ),
        ),
    }
}

/// The outcome of the audit-configuration rule once it looks for its
/// configuration file, decided by what a presence lookup of
/// `.bundler-audit.yml` found.
pub open spec fn spec_bundler_audit_yaml_outcome(r: FileCheckResult) -> OutcomeModel {
    match r {
        FileCheckResult::Found => OutcomeModel::Pass("Found a `.bundler-audit.yml` file."@),
        FileCheckResult::AccessDenied => OutcomeModel::Failure(
            "Could not find a `.bundler-audit.yml` file: Access Denied"@,
        ),
        FileCheckResult::AccessForbidden => OutcomeModel::Failure(
            "Could not find a `.bundler-audit.yml` file: Access forbidden."@,
        ),
        FileCheckResult::NotFound => OutcomeModel::Failure(
            "Could not find a `.bundler-audit.yml` file."@,
        ),
        FileCheckResult::Error => OutcomeModel::Failure(
            "Could not find a `.bundler-audit.yml` file: request failed."@,
        ),
    }
}

/// Decides the audit-configuration rule's configuration-file lookup.
pub fn check_for_bundler_audit_yaml(r: &FileCheckResult) -> (o: CheckResult)
    ensures
        o@ == spec_bundler_audit_yaml_outcome(*r),
{
    match r {
        FileCheckResult::Found => CheckResult::Pass("Found a `.bundler-audit.yml` file.".to_owned()),
        FileCheckResult::AccessDenied => CheckResult::Failure(
            "Could not find a `.bundler-audit.yml` file: Access Denied".to_owned(),
        ),
        FileCheckResult::AccessForbidden => CheckResult::Failure(
            "Could not find a `.bundler-audit.yml` file: Access forbidden.".to_owned(),
        ),
        FileCheckResult::NotFound => CheckResult::Failure(
            "Could not find a `.bundler-audit.yml` file.".to_owned(),
        ),
        FileCheckResult::Error => CheckResult::Failure(
            "Could not find a `.bundler-audit.yml` file: request failed.".to_owned(),
        ),
    }
}

/// The branch-protection rule passes exactly when the default branch is
/// among the protected branch names.
pub open spec fn spec_branch_protected(
    default_branch: Seq<char>,
    protected: Seq<Seq<char>>,
) -> bool {
    exists|i: int| 0 <= i < protected.len() && protected[i] == default_branch
}

/// Decides the branch-protection rule from the two lookups it needs: the
/// default branch name and the protected branch names. A lookup that
/// failed (no value came back) ends the rule in one local failure.
pub fn verify_default_branch_protected(
    default_branch: &Option<String>,
    protected: &Option<Vec<String>>,
) -> (o: CheckResult)
    ensures
        match default_branch {
            Option::None => o@ == OutcomeModel::Failure(
                "Could not determine the default branch: Request failure."@,
            ),
            Option::Some(d) => match protected {
                Option::None => o@ == OutcomeModel::Failure(
                    "Could not list protected branches: Request failure."@,
                ),
                Option::Some(p) => (spec_branch_protected(d@, p.deep_view()) ==> o@
                    == OutcomeModel::Pass("Default Branch is Protected"@)) && (
                !spec_branch_protected(d@, p.deep_view()) ==> o@ == OutcomeModel::Failure(
                    "Default Branch is not Protected"@,
                )),
            },
        },
{
    let d = match default_branch {
        Option::Some(d) => d,
        Option::None => {
            return CheckResult::Failure(
                "Could not determine the default branch: Request failure.".to_owned(),
            );
        },
    };
    let p = match protected {
        Option::Some(p) => p,
        Option::None => {
            return CheckResult::Failure(
                "Could not list protected branches: Request failure.".to_owned(),
            );
        },
    };
    let n = p.len();
    let mut i: usize = 0;
    while i < n
        invariant
            i <= n,
            n == p@.len(),
            default_branch matches Some(dd) && dd == *d,
            protected matches Some(pp) && pp == *p,
            p.deep_view().len() == n,
            forall|j: int| 0 <= j < n ==> p.deep_view()[j] == p@[j]@,
            forall|j: int| 0 <= j < i ==> p@[j]@ != d@,
        decreases n - i,
    {
        if p[i] == *d {
            assert(p.deep_view()[i as int] == d@);
            return CheckResult::Pass("Default Branch is Protected".to_owned());
        }
        i = i + 1;
    }
    CheckResult::Failure("Default Branch is not Protected".to_owned())
}

/// The flag gate of the audit-configuration unit: with the audit flag off
/// the unit is done, with no outcomes, before any lookup; with the flag on
/// the unit proceeds to its content lookups.
pub fn rails_projects_gate(check_bundler_audit: bool) -> (r: Option<Vec<CheckResult>>)
    ensures
        check_bundler_audit <==> r is None,
        r matches Some(os) ==> os@.len() == 0,
{
    if check_bundler_audit {
        None
    } else {
        Some(Vec::new())
    }
}


/// The content type a webhook posts with, as the update-reporting rule
/// reads it.
#[derive(Clone, Copy, PartialEq, Eq, Structural, Debug)]
pub enum HookContentType {
    Json,
    Form,
    Other,
}

/// One event kind a webhook can subscribe to, as the update-reporting rule
/// reads it; kinds the rule never asks about are `Other`.
#[derive(Clone, Copy, PartialEq, Eq, Structural, Debug)]
pub enum HookEvent {
    Create,
    Delete,
    PullRequestReview,
    PullRequest,
    Push,
    WorkflowRun,
    Other,
}

/// One webhook as the update-reporting rule reads it: target URL, content
/// type, active flag, and the subscribed event kinds.
pub struct WebhookConfig {
    pub url: String,
    pub content_type: Option<HookContentType>,
    pub active: bool,
    pub events: Vec<HookEvent>,
}

/// Mathematical model of a `WebhookConfig`.
pub struct HookModel {
    pub url: Seq<char>,
    pub content_type: Option<HookContentType>,
    pub active: bool,
    pub events: Seq<HookEvent>,
}

impl View for WebhookConfig {
    type V = HookModel;

    open spec fn view(&self) -> HookModel {
        HookModel {
            url: self.url@,
            content_type: self.content_type,
            active: self.active,
            events: self.events@,
        }
    }
}

/// The first webhook address the update-reporting rule accepts.
pub open spec fn yellr_webhook_1() -> Seq<char> {
    "https://us-central1-active-branches-report.cloudfunctions.net/webhook"@
}

/// The second webhook address the update-reporting rule accepts.
pub open spec fn yellr_webhook_2() -> Seq<char> {
    "https://yellr.app/webhook"@
}

/// A webhook satisfies the update-reporting rule when it posts JSON to one
/// of the accepted addresses, is active, and subscribes to creates,
/// deletes, pull requests, pull-request reviews, pushes and workflow runs.
pub open spec fn spec_hook_ok(h: HookModel) -> bool {
    &&& h.content_type == Option::Some(HookContentType::Json)
    &&& (h.url == yellr_webhook_1() || h.url == yellr_webhook_2())
    &&& h.active
    &&& h.events.contains(HookEvent::Create)
    &&& h.events.contains(HookEvent::Delete)
    &&& h.events.contains(HookEvent::PullRequestReview)
    &&& h.events.contains(HookEvent::PullRequest)
    &&& h.events.contains(HookEvent::Push)
    &&& h.events.contains(HookEvent::WorkflowRun)
}

/// Says whether the webhook's subscribed events include `e`.
fn events_contain(events: &Vec<HookEvent>, e: HookEvent) -> (r: bool)
    ensures
        r == events@.contains(e),
{
    let n = events.len();
    let mut i: usize = 0;
    while i < n
        invariant
            i <= n,
            n == events@.len(),
            forall|j: int| 0 <= j < i ==> events@[j] != e,
        decreases n - i,
    {
        if events[i] == e {
            return true;
        }
        i = i + 1;
    }
    false
}

/// Says whether one webhook satisfies the update-reporting rule.
pub fn hook_check(h: &WebhookConfig) -> (r: bool)
    ensures
        r == spec_hook_ok(h@),
{
    let content_type_ok = match &h.content_type {
        Option::Some(HookContentType::Json) => true,
        _ => false,
    };
    let url_1: String = "https://us-central1-active-branches-report.cloudfunctions.net/webhook"
        .to_owned();
    let url_2: String = "https://yellr.app/webhook".to_owned();
    let url_ok = h.url == url_1 || h.url == url_2;
    let events_ok = events_contain(&h.events, HookEvent::Create) && events_contain(
        &h.events,
        HookEvent::Delete,
    ) && events_contain(&h.events, HookEvent::PullRequestReview) && events_contain(
        &h.events,
        HookEvent::PullRequest,
    ) && events_contain(&h.events, HookEvent::Push) && events_contain(
        &h.events,
        HookEvent::WorkflowRun,
    );
    content_type_ok && url_ok && h.active && events_ok
}

/// The outcome of the update-reporting rule: one failure when the webhook
/// listing could not be fetched, one pass when some webhook satisfies the
/// rule, and one failure otherwise.
pub fn verify_updates_yellr(hooks: &Option<Vec<WebhookConfig>>) -> (os: Vec<CheckResult>)
    ensures
        os@.len() == 1,
        match hooks {
            Option::None => os@[0]@ == OutcomeModel::Failure(
                "Could not check if repository reports to Yellr: Request failure."@,
            ),
            Option::Some(hs) => {
                if exists|i: int| 0 <= i < hs@.len() && spec_hook_ok(hs@[i]@) {
                    os@[0]@ == OutcomeModel::Pass("Repository Reports to Yellr correctly"@)
                } else {
                    os@[0]@ == OutcomeModel::Failure("Repository does not report to Yellr."@)
                }
            },
        },
{
    let mut os: Vec<CheckResult> = Vec::new();
    match hooks {
        Option::None => {
            os.push(
                CheckResult::Failure(
                    "Could not check if repository reports to Yellr: Request failure.".to_owned(),
                ),
            );
        },
        Option::Some(hs) => {
            let n = hs.len();
            let mut i: usize = 0;
            let mut found = false;
            while i < n
                invariant
                    i <= n,
                    n == hs@.len(),
                    found == exists|j: int| 0 <= j < i && spec_hook_ok(hs@[j]@),
                decreases n - i,
            {
                if hook_check(&hs[i]) {
                    found = true;
                    proof {
                        assert(spec_hook_ok(hs@[i as int]@));
                    }
                }
                i = i + 1;
            }
            if found {
                os.push(CheckResult::Pass("Repository Reports to Yellr correctly".to_owned()));
            } else {
                os.push(CheckResult::Failure("Repository does not report to Yellr.".to_owned()));
            }
        },
    }
    os
}

} // verus!
