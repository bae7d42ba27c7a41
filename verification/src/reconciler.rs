//! The reconciler of privileged resources: the removal of the worker's
//! driver service, and the probes of what the host allows.

use crate::command::no_args;
use crate::command::push_text;
use crate::command::quiet;
use crate::command::quiet_command;
use crate::command::texts;
use crate::command::CommandLine;
use crate::command::CommandView;
use crate::command::Platform;
use crate::command::Reply;
use crate::error::Failure;
use crate::error::FailureKind;
use crate::text::chars_of;
use crate::text::contains;
use crate::text::contains_text;
use crate::text::first_line;
use crate::text::joined;
use crate::text::lines_of;
use crate::text::lowercase;
use crate::text::to_lowercase;
use vstd::prelude::*;

verus! {

/// One step of a removal of the driver service.
#[derive(Debug)]
pub struct TeardownStep {
    /// The command to run.
    pub command: CommandLine,
    /// Whether it is a failure of the removal that the command cannot be
    /// run. What the command reports never is: a service that is not there
    /// is as good as one removed.
    pub required: bool,
    /// How many milliseconds to wait after the command.
    pub pause_ms: u64,
}

/// A step with its command as a mathematical value.
pub struct StepView {
    pub command: CommandView,
    pub required: bool,
    pub pause_ms: u64,
}

impl View for TeardownStep {
    type V = StepView;

    open spec fn view(&self) -> StepView {
        StepView { command: self.command@, required: self.required, pause_ms: self.pause_ms }
    }
}

/// The views of a list of steps.
pub open spec fn step_views(steps: Seq<TeardownStep>) -> Seq<StepView> {
    steps.map_values(|step: TeardownStep| step@)
}

/// The command that asks the service manager to do `action` to the driver
/// service.
pub open spec fn service_command(platform: Platform, action: Seq<char>) -> CommandView {
    quiet_command(platform, "sc"@, seq![action, "WinDivert"@])
}

/// The steps that remove the driver service: stop it as far as that goes,
/// then delete it. Only Windows has such a service. `last_required` and
/// `pause_ms` tell whether the last step is required and how long to wait
/// after each step.
pub open spec fn removal(platform: Platform, last_required: bool, pause_ms: u64) -> Seq<StepView> {
    match platform {
        Platform::Windows => seq![
            StepView { command: service_command(platform, "stop"@), required: false, pause_ms },
            StepView {
                command: service_command(platform, "delete"@),
                required: last_required,
                pause_ms,
            },
        ],
        Platform::Unix => Seq::empty(),
    }
}

fn service_step(platform: Platform, action: &str, required: bool, pause_ms: u64) -> (step:
    TeardownStep)
    ensures
        step@ == (StepView { command: service_command(platform, action@), required, pause_ms }),
{
    let mut args: Vec<String> = no_args();
    push_text(&mut args, action);
    push_text(&mut args, "WinDivert");
    assert(texts(args@) =~= seq![action@, "WinDivert"@]);
    TeardownStep { command: quiet(platform, "sc", args), required, pause_ms }
}

fn removal_steps(platform: Platform, last_required: bool, pause_ms: u64) -> (steps: Vec<TeardownStep>)
    ensures
        step_views(steps@) == removal(platform, last_required, pause_ms),
{
    let mut steps: Vec<TeardownStep> = Vec::new();
    match platform {
        Platform::Windows => {
            steps.push(service_step(platform, "stop", false, pause_ms));
            steps.push(service_step(platform, "delete", last_required, pause_ms));
        },
        Platform::Unix => {},
    }
    assert(step_views(steps@) =~= removal(platform, last_required, pause_ms));
    steps
}

/// The steps that remove the driver service once the worker is gone. That
/// the service cannot be stopped does not matter; that the request to
/// delete it cannot be made is a failure.
pub fn kill_windivert_service(platform: Platform) -> (steps: Vec<TeardownStep>)
    ensures
        step_views(steps@) == removal(platform, true, 0),
{
    removal_steps(platform, true, 0)
}

/// The steps that clear a driver service left over from an earlier run,
/// before the worker's files are replaced. Nothing here is a failure, and
/// the service manager gets half a second after each step.
pub fn clear_stale_driver(platform: Platform) -> (steps: Vec<TeardownStep>)
    ensures
        step_views(steps@) == removal(platform, false, 500),
{
    removal_steps(platform, false, 500)
}

/// Takes what came of asking for a step: a failure where the step is
/// required and the request could not be made, and success in every other
/// case.
pub fn step_done(step: &TeardownStep, asked: Result<(), String>) -> (r: Result<(), Failure>)
    ensures
        match r {
            Ok(_) => !step.required || asked is Ok,
            Err(failure) => {
                &&& step.required
                &&& asked matches Err(error)
                &&& failure@ == (
                    FailureKind::PrivilegedResource,
                    "Failed to remove WinDivert service: "@ + error@,
                )
            },
        },
{
    match asked {
        Ok(_) => Ok(()),
        Err(error) => {
            if step.required {
                Err(
                    Failure::new(
                        FailureKind::PrivilegedResource,
                        joined("Failed to remove WinDivert service: ", error.as_str()),
                    ),
                )
            } else {
                Ok(())
            }
        },
    }
}

/// Whether the process holds administrative rights. On Windows
/// `token_elevation` is the elevation field of the process token, or `None`
/// where the token could not be read, which counts as not elevated. Other
/// systems have nothing to elevate to.
pub open spec fn elevated(platform: Platform, token_elevation: Option<u32>) -> bool {
    match platform {
        Platform::Windows => token_elevation matches Some(field) && field != 0,
        Platform::Unix => true,
    }
}

/// Tells whether the process holds administrative rights.
pub fn is_elevated(platform: Platform, token_elevation: Option<u32>) -> (r: bool)
    ensures
        r == elevated(platform, token_elevation),
{
    match platform {
        Platform::Windows => match token_elevation {
            Some(field) => field != 0,
            None => false,
        },
        Platform::Unix => true,
    }
}

/// What a probe of the host comes to.
#[derive(Debug)]
pub enum Probe {
    /// The answer is known without asking the system.
    Settled(bool),
    /// The answer is in the reply to this command.
    Ask(CommandLine),
}

/// The command that shows the global settings of TCP.
pub open spec fn show_tcp_command(platform: Platform) -> CommandView {
    quiet_command(platform, "netsh"@, seq!["interface"@, "tcp"@, "show"@, "global"@])
}

/// The command that switches the TCP timestamps on.
pub open spec fn set_tcp_command(platform: Platform) -> CommandView {
    quiet_command(
        platform,
        "netsh"@,
        seq!["interface"@, "tcp"@, "set"@, "global"@, "timestamps=enabled"@],
    )
}

/// Begins the check of the TCP timestamp option, which the worker needs.
/// Only Windows has the option to switch; elsewhere the need is met.
pub fn check_tcp_timestamps(platform: Platform) -> (probe: Probe)
    ensures
        match platform {
            Platform::Windows => probe matches Probe::Ask(command) && command@ == show_tcp_command(
                platform,
            ),
            Platform::Unix => probe == Probe::Settled(true),
        },
{
    match platform {
        Platform::Windows => {
            let mut args: Vec<String> = no_args();
            push_text(&mut args, "interface");
            push_text(&mut args, "tcp");
            push_text(&mut args, "show");
            push_text(&mut args, "global");
            assert(texts(args@) =~= seq!["interface"@, "tcp"@, "show"@, "global"@]);
            Probe::Ask(quiet(platform, "netsh", args))
        },
        Platform::Unix => Probe::Settled(true),
    }
}

/// The line says that the timestamps of RFC 1323 are enabled.
pub open spec fn names_enabled_timestamps(line: Seq<char>) -> bool {
    contains_text(line, "rfc 1323"@) && contains_text(line, "enabled"@)
}

/// One of the lines says that the timestamps are enabled.
pub open spec fn some_line_enabled(lines: Seq<Seq<char>>) -> bool {
    exists|i: int| 0 <= i < lines.len() && names_enabled_timestamps(#[trigger] lines[i])
}

/// The settings shown say that the timestamps are enabled: one line of
/// them, in lower case, holds both `rfc 1323` and `enabled`.
pub open spec fn timestamps_enabled(output: Seq<char>) -> bool {
    some_line_enabled(lines_of(lowercase(output)))
}

/// Reads the reply to the command that shows the TCP settings.
pub fn read_tcp_timestamps(reply: &Reply) -> (r: Result<bool, Failure>)
    ensures
        match *reply {
            Reply::NotRun(error) => r matches Err(failure) && failure@ == (
                FailureKind::PrivilegedResource,
                "Failed to check TCP timestamps: "@ + error@,
            ),
            Reply::Ran { output, .. } => r == Ok::<bool, Failure>(timestamps_enabled(output@)),
        },
{
    match reply {
        Reply::NotRun(error) => Err(
            Failure::new(
                FailureKind::PrivilegedResource,
                joined("Failed to check TCP timestamps: ", error.as_str()),
            ),
        ),
        Reply::Ran { output, .. } => {
            let lowered = to_lowercase(output.as_str());
            let shown = chars_of(lowered.as_str());
            Ok(shows_enabled(shown.as_slice()))
        },
    }
}

/// Tells whether one of the lines of `shown` says that the timestamps are
/// enabled.
pub fn shows_enabled(shown: &[char]) -> (r: bool)
    ensures
        r == some_line_enabled(lines_of(shown@)),
{
    let name = chars_of("rfc 1323");
    let state = chars_of("enabled");
    let mut rest: &[char] = shown;
    loop
        invariant
            name@ == "rfc 1323"@,
            state@ == "enabled"@,
            some_line_enabled(lines_of(shown@)) == some_line_enabled(lines_of(rest@)),
        decreases rest@.len(),
    {
        match first_line(rest) {
            None => {
                return false;
            },
            Some((line, tail)) => {
                let ghost lines = lines_of(rest@);
                assert(lines[0] == line@);
                if contains(line, name.as_slice()) && contains(line, state.as_slice()) {
                    return true;
                }
                assert(some_line_enabled(lines) == some_line_enabled(lines_of(tail@))) by {
                    let later = lines_of(tail@);
                    if some_line_enabled(lines) {
                        let i = choose|i: int|
                            0 <= i < lines.len() && names_enabled_timestamps(#[trigger] lines[i]);
                        assert(later[i - 1] == lines[i]);
                    }
                    if some_line_enabled(later) {
                        let i = choose|i: int|
                            0 <= i < later.len() && names_enabled_timestamps(#[trigger] later[i]);
                        assert(lines[i + 1] == later[i]);
                    }
                }
                rest = tail;
            },
        }
    }
}

/// The command that switches the TCP timestamps on, or `None` where there
/// is nothing to switch.
pub fn enable_tcp_timestamps(platform: Platform) -> (command: Option<CommandLine>)
    ensures
        match platform {
            Platform::Windows => command matches Some(c) && c@ == set_tcp_command(platform),
            Platform::Unix => command is None,
        },
{
    match platform {
        Platform::Windows => {
            let mut args: Vec<String> = no_args();
            push_text(&mut args, "interface");
            push_text(&mut args, "tcp");
            push_text(&mut args, "set");
            push_text(&mut args, "global");
            push_text(&mut args, "timestamps=enabled");
            assert(texts(args@) =~= seq![
                "interface"@,
                "tcp"@,
                "set"@,
                "global"@,
                "timestamps=enabled"@,
            ]);
            Some(quiet(platform, "netsh", args))
        },
        Platform::Unix => None,
    }
}

/// Takes what came of asking for the TCP timestamps to be switched on.
pub fn tcp_timestamps_set(asked: Result<(), String>) -> (r: Result<(), Failure>)
    ensures
        match asked {
            Ok(_) => r is Ok,
            Err(error) => r matches Err(failure) && failure@ == (
                FailureKind::PrivilegedResource,
                "Failed to enable TCP timestamps: "@ + error@,
            ),
        },
{
    match asked {
        Ok(_) => Ok(()),
        Err(error) => Err(
            Failure::new(
                FailureKind::PrivilegedResource,
                joined("Failed to enable TCP timestamps: ", error.as_str()),
            ),
        ),
    }
}

} // verus!
