use vstd::prelude::*;

verus! {

/// Where releases are published.
pub const UPDATE_URL: &'static str =
    "https://github.com/jason-murray/irefined/releases/latest/download";

/// What a look for a newer release came to.
#[derive(Debug, Clone, PartialEq, Eq)]
pub enum CheckOutcome {
    /// A newer release with this version is there.
    UpdateAvailable { version: String },
    /// The installed release is the newest.
    NoUpdateAvailable,
    /// Nothing has been published.
    RemoteIsEmpty,
    /// The look itself failed.
    Failed { reason: String },
}

/// What to do after a look for a newer release.
#[derive(Debug, Clone, Copy, PartialEq, Eq, Structural)]
pub enum UpdateStep {
    /// Download the release, apply it and restart.
    Install,
    /// Carry on; a failed look is no reason to stop.
    Done,
}

/// The line to log for an outcome.
pub open spec fn report_text(outcome: CheckOutcome) -> Seq<char> {
    match outcome {
        CheckOutcome::UpdateAvailable { version } => "[INFO] Update available! Version: "@
            + version@,
        CheckOutcome::NoUpdateAvailable => "[INFO] No updates available"@,
        CheckOutcome::RemoteIsEmpty => "[INFO] Update source is empty"@,
        CheckOutcome::Failed { reason } => "[ERROR] Update check failed: "@ + reason@,
    }
}

/// Decides what follows a look for a newer release: only a release that is
/// there is installed.
pub fn after_check(outcome: &CheckOutcome) -> (step: UpdateStep)
    ensures
        step == if *outcome is UpdateAvailable {
            UpdateStep::Install
        } else {
            UpdateStep::Done
        },
{
    match outcome {
        CheckOutcome::UpdateAvailable { .. } => UpdateStep::Install,
        _ => UpdateStep::Done,
    }
}

/// The line to log for an outcome.
pub fn report(outcome: &CheckOutcome) -> (line: String)
    ensures
        line@ == report_text(*outcome),
{
    match outcome {
        CheckOutcome::UpdateAvailable { version } => {
            let mut line = String::from_str("[INFO] Update available! Version: ");
            line.append(version.as_str());
            line
        },
        CheckOutcome::NoUpdateAvailable => String::from_str("[INFO] No updates available"),
        CheckOutcome::RemoteIsEmpty => String::from_str("[INFO] Update source is empty"),
        CheckOutcome::Failed { reason } => {
            let mut line = String::from_str("[ERROR] Update check failed: ");
            line.append(reason.as_str());
            line
        },
    }
}

} // verus!
