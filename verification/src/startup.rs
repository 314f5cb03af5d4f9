//! The order of the startup steps, and what the failure of one means.
//!
//! The caller performs each step and reports whether it succeeded; this module
//! says which step comes next, when startup is complete and when it is
//! abandoned.

use vstd::prelude::*;

verus! {

/// How severe a diagnostic message is, from the most severe down.
#[derive(Clone, Copy, Debug, PartialEq, Eq, Structural)]
pub enum Severity {
    Error,
    Warn,
    Info,
    Debug,
    Trace,
}

/// One step of startup.
#[derive(Clone, Copy, Debug, PartialEq, Eq, Structural)]
pub enum Step {
    /// Attach the diagnostic log, which keeps messages of `threshold` and
    /// above.
    AttachLogging { threshold: Severity },
    /// Construct the entries of the tray menu and the menu itself.
    BuildMenu,
    /// Construct the tray icon with its menu and its event handlers.
    BuildTray,
    /// Make the title update available to the front end.
    RegisterCommand,
}

/// Where startup stands.
#[derive(Clone, Copy, Debug, PartialEq, Eq, Structural)]
pub enum Progress {
    /// This step is to be performed next.
    Next(Step),
    /// Every step is done: the application runs.
    Ready,
    /// This step failed: startup is abandoned.
    Aborted(Step),
}

impl Step {
    /// Whether the step can fail. Registering the command cannot.
    pub open spec fn fallible(self) -> bool {
        self != Step::RegisterCommand
    }

    /// Where startup stands once the step has succeeded.
    pub open spec fn followed_by(self) -> Progress {
        match self {
            Step::AttachLogging { .. } => Progress::Next(Step::BuildMenu),
            Step::BuildMenu => Progress::Next(Step::BuildTray),
            Step::BuildTray => Progress::Next(Step::RegisterCommand),
            Step::RegisterCommand => Progress::Ready,
        }
    }

    /// Where startup stands once the step has been performed. The failure of
    /// a step that can fail abandons startup.
    pub open spec fn concluded(self, succeeded: bool) -> Progress {
        if !succeeded && self.fallible() {
            Progress::Aborted(self)
        } else {
            self.followed_by()
        }
    }
}

/// The step with which startup begins: a development build attaches the
/// diagnostic log first, with messages from `Info` up; a production build has
/// no log and begins with the menu.
pub open spec fn opening(debug_build: bool) -> Step {
    if debug_build {
        Step::AttachLogging { threshold: Severity::Info }
    } else {
        Step::BuildMenu
    }
}

/// The first step of startup.
pub fn first_step(debug_build: bool) -> (step: Step)
    ensures
        step == opening(debug_build),
{
    if debug_build {
        Step::AttachLogging { threshold: Severity::Info }
    } else {
        Step::BuildMenu
    }
}

/// Where startup stands once `step` has been performed and has succeeded or
/// not.
pub fn advance(step: Step, succeeded: bool) -> (progress: Progress)
    ensures
        progress == step.concluded(succeeded),
{
    match step {
        Step::RegisterCommand => Progress::Ready,
        _ if !succeeded => Progress::Aborted(step),
        Step::AttachLogging { .. } => Progress::Next(Step::BuildMenu),
        Step::BuildMenu => Progress::Next(Step::BuildTray),
        Step::BuildTray => Progress::Next(Step::RegisterCommand),
    }
}

} // verus!
