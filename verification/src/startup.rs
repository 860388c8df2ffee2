//! How the program starts: a restart helper run ends there, an unelevated run
//! hands over to an elevated one, otherwise the application starts and runs its
//! message loop. Each step is carried out by the caller, who reports its result.

use vstd::prelude::*;

verus! {

/// A step of the start-up.
#[derive(Clone, Copy, Debug, PartialEq, Eq, Structural)]
pub enum StartupStep {
    /// Run the shell restart helper if the command line asks for it; reports
    /// whether it ran.
    RestartHelper,
    /// Make sure the process is elevated; reports whether it already was (an
    /// elevated copy was started otherwise).
    Elevation,
    /// Create the application.
    Application,
    /// Run the message loop until the application quits.
    MessageLoop,
}

/// What follows a step.
pub enum StartupNext {
    Continue(StartupStep),
    Finish(Result<(), String>),
}

/// What follows `step` given what it reported: an error ends the start-up with
/// that error; a helper that ran and an unelevated run end it without one;
/// otherwise the next step comes, and the message loop is the last.
pub fn run(step: StartupStep, outcome: Result<bool, String>) -> (r: StartupNext)
    ensures
        match outcome {
            Err(error) => r matches StartupNext::Finish(Err(e)) && e == error,
            Ok(done) => match step {
                StartupStep::RestartHelper => if done {
                    r matches StartupNext::Finish(Ok(_))
                } else {
                    r matches StartupNext::Continue(StartupStep::Elevation)
                },
                StartupStep::Elevation => if done {
                    r matches StartupNext::Continue(StartupStep::Application)
                } else {
                    r matches StartupNext::Finish(Ok(_))
                },
                StartupStep::Application => r matches StartupNext::Continue(StartupStep::MessageLoop),
                StartupStep::MessageLoop => r matches StartupNext::Finish(Ok(_)),
            },
        },
{
    let done = match outcome {
        Err(error) => return StartupNext::Finish(Err(error)),
        Ok(done) => done,
    };
    match step {
        StartupStep::RestartHelper => if done {
            StartupNext::Finish(Ok(()))
        } else {
            StartupNext::Continue(StartupStep::Elevation)
        },
        StartupStep::Elevation => if done {
            StartupNext::Continue(StartupStep::Application)
        } else {
            StartupNext::Finish(Ok(()))
        },
        StartupStep::Application => StartupNext::Continue(StartupStep::MessageLoop),
        StartupStep::MessageLoop => StartupNext::Finish(Ok(())),
    }
}

/// The error dialog shown when the start-up failed.
pub struct FatalErrorDialog {
    pub title: String,
    pub message: String,
}

/// The dialog that reports the start-up failure `message`.
pub fn show_fatal_error(message: &str) -> (r: FatalErrorDialog)
    ensures
        r.title@ == "ep_start 启动失败"@,
        r.message@ == message@,
{
    FatalErrorDialog { title: String::from_str("ep_start 启动失败"), message: String::from_str(message) }
}

} // verus!
