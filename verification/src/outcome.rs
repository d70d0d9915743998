//! The three-state result of evaluating one compliance rule, and its
//! rendering as one Markdown line.

use vstd::prelude::*;

verus! {

/// The result of evaluating one compliance rule: the rule held (with a
/// human-readable message), the rule failed (with a message saying what was
/// missing or went wrong), or the rule does not apply to this repository.
#[derive(Debug, PartialEq, Eq)]
pub enum CheckResult {
    Pass(String),
    Failure(String),
    Ignore,
}

/// Mathematical model of a `CheckResult`: the same three cases, with each
/// message as a sequence of characters.
pub enum OutcomeModel {
    Pass(Seq<char>),
    Failure(Seq<char>),
    Ignore,
}

impl View for CheckResult {
    type V = OutcomeModel;

    open spec fn view(&self) -> OutcomeModel {
        match self {
            CheckResult::Pass(m) => OutcomeModel::Pass(m@),
            CheckResult::Failure(m) => OutcomeModel::Failure(m@),
            CheckResult::Ignore => OutcomeModel::Ignore,
        }
    }
}

impl Clone for CheckResult {
    fn clone(&self) -> (r: Self)
        ensures
            r@ == self@,
    {
        match self {
            CheckResult::Pass(m) => CheckResult::Pass(m.clone()),
            CheckResult::Failure(m) => CheckResult::Failure(m.clone()),
            CheckResult::Ignore => CheckResult::Ignore,
        }
    }
}

/// The Markdown line that renders an outcome: a check mark or a cross in
/// front of the message, or nothing for an outcome that does not apply.
pub open spec fn markdown_line(o: OutcomeModel) -> Option<Seq<char>> {
    match o {
        OutcomeModel::Pass(m) => Some("\u{2705} "@ + m + "\n"@),
        OutcomeModel::Failure(m) => Some("\u{274c} "@ + m + "\n"@),
        OutcomeModel::Ignore => None,
    }
}

impl CheckResult {
    /// Renders this outcome as one Markdown line; an outcome that does not
    /// apply renders as nothing.
    pub fn into_markdown(&self) -> (r: Option<String>)
        ensures
            r.deep_view() == markdown_line(self@),
    {
        match self {
            CheckResult::Pass(m) => {
                let mut s = "\u{2705} ".to_owned();
                s.append(m.as_str());
                s.append("\n");
                Some(s)
            },
            CheckResult::Failure(m) => {
                let mut s = "\u{274c} ".to_owned();
                s.append(m.as_str());
                s.append("\n");
                Some(s)
            },
            CheckResult::Ignore => None,
        }
    }
}

} // verus!
