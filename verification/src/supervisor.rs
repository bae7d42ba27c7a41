//! The supervisor of the one worker process: what to run to start, probe
//! and end it, and how the handle on it changes with what came back.
//!
//! The worker is idle while the handle is zero and running while it holds
//! a process identifier. Between the two, while the caller carries out a
//! launch or a kill that a function here has asked for, it is starting or
//! stopping; the handle changes only when the outcome is handed back. A
//! scan for a worker left behind leads from idle straight to running.

use crate::command::no_args;
use crate::command::push_arg;
use crate::command::push_text;
use crate::command::quiet;
use crate::command::quiet_command;
use crate::command::texts;
use crate::command::CommandLine;
use crate::command::CommandView;
use crate::command::Platform;
use crate::command::Reply;
use crate::error::Failure;
use crate::error::FailureKind;
use crate::listing::csv_record;
use crate::listing::find_orphan;
use crate::listing::lemma_listed_worker_is_found;
use crate::listing::lemma_printed_worker_is_found;
use crate::listing::worker_image;
use crate::listing::orphan_in;
use crate::reconciler::kill_windivert_service;
use crate::reconciler::removal;
use crate::reconciler::step_views;
use crate::reconciler::TeardownStep;
use crate::text::chars_of;
use crate::text::contains;
use crate::text::contains_text;
use crate::text::decimal;
use crate::text::decimal_digits;
use crate::text::joined;
use crate::text::lemma_contains_middle;
use vstd::prelude::*;

verus! {

/// The handle on the worker: the identifier of its process, or zero where
/// no worker is known. It is a key to look the process up by, and owns
/// nothing.
#[derive(Debug)]
pub struct WorkerHandle {
    pid: u32,
}

impl View for WorkerHandle {
    type V = u32;

    closed spec fn view(&self) -> u32 {
        self.pid
    }
}

impl WorkerHandle {
    /// A handle on no worker.
    pub fn new() -> (handle: WorkerHandle)
        ensures
            handle@ == 0,
    {
        WorkerHandle { pid: 0 }
    }
}

/// Makes `pid` the identifier of the worker, in place of any other.
pub fn set_running_pid(handle: &mut WorkerHandle, pid: u32)
    ensures
        final(handle)@ == pid,
{
    handle.pid = pid;
}

/// The identifier of the worker, or zero where none is known.
pub fn get_running_pid(handle: &WorkerHandle) -> (pid: u32)
    ensures
        pid == handle@,
{
    handle.pid
}

/// How to start the worker: the arguments for its executable and the
/// process creation flags.
#[derive(Debug)]
pub struct Launch {
    /// The arguments, in order.
    pub args: Vec<String>,
    /// The process creation flags, which only Windows knows.
    pub creation_flags: u32,
}

/// The arguments of the worker: the flag for the TCP ports, the flag for the
/// UDP ports, then what the caller asked for.
pub open spec fn worker_args(extra: Seq<Seq<char>>, tcp_ports: Seq<char>, udp_ports: Seq<char>) -> Seq<
    Seq<char>,
> {
    seq!["--wf-tcp="@ + tcp_ports, "--wf-udp="@ + udp_ports] + extra
}

/// Decides on a request to start the worker. Where its executable is
/// missing there is nothing to start; else the worker is to be started
/// with the two port flags before the caller's arguments, and without a
/// window.
pub fn start_winws(
    platform: Platform,
    winws_present: bool,
    args: Vec<String>,
    tcp_ports: &str,
    udp_ports: &str,
) -> (r: Result<Launch, Failure>)
    ensures
        match r {
            Ok(launch) => {
                &&& winws_present
                &&& texts(launch.args@) == worker_args(texts(args@), tcp_ports@, udp_ports@)
                &&& launch.creation_flags == platform.quiet()
            },
            Err(failure) => {
                &&& !winws_present
                &&& failure@ == (
                    FailureKind::NotFound,
                    "winws.exe not found. Please download binaries first."@,
                )
            },
        },
{
    if !winws_present {
        return Err(
            Failure::new(
                FailureKind::NotFound,
                String::from_str("winws.exe not found. Please download binaries first."),
            ),
        );
    }
    let mut full: Vec<String> = no_args();
    push_arg(&mut full, joined("--wf-tcp=", tcp_ports));
    push_arg(&mut full, joined("--wf-udp=", udp_ports));
    let mut i: usize = 0;
    while i < args.len()
        invariant
            i <= args@.len(),
            texts(full@) == seq!["--wf-tcp="@ + tcp_ports@, "--wf-udp="@ + udp_ports@] + texts(
                args@,
            ).take(i as int),
        decreases args@.len() - i,
    {
        let ghost before = texts(full@);
        push_arg(&mut full, args[i].clone());
        assert(texts(full@) =~= seq!["--wf-tcp="@ + tcp_ports@, "--wf-udp="@ + udp_ports@] + texts(
            args@,
        ).take(i + 1));
        i += 1;
    }
    assert(texts(args@).take(i as int) == texts(args@));
    Ok(Launch { args: full, creation_flags: platform.quiet_flags() })
}

/// Takes what came of starting the worker: the identifier of the new
/// process, which becomes the handle, or the reason why none was started,
/// which leaves the handle as it was.
pub fn winws_started(handle: &mut WorkerHandle, spawned: Result<u32, String>) -> (r: Result<
    u32,
    Failure,
>)
    ensures
        match spawned {
            Ok(pid) => r == Ok::<u32, Failure>(pid) && final(handle)@ == pid,
            Err(error) => {
                &&& r matches Err(failure)
                &&& failure@ == (FailureKind::LaunchFailed, "Failed to start winws.exe: "@ + error@)
                &&& final(handle)@ == old(handle)@
            },
        },
{
    match spawned {
        Ok(pid) => {
            set_running_pid(handle, pid);
            Ok(pid)
        },
        Err(error) => Err(
            Failure::new(
                FailureKind::LaunchFailed,
                joined("Failed to start winws.exe: ", error.as_str()),
            ),
        ),
    }
}

/// The command that ends the process `pid` by force.
pub open spec fn kill_command(platform: Platform, pid: u32) -> CommandView {
    match platform {
        Platform::Windows => quiet_command(
            platform,
            "taskkill"@,
            seq!["/PID"@, decimal_digits(pid as nat), "/F"@],
        ),
        Platform::Unix => quiet_command(platform, "kill"@, seq!["-9"@, decimal_digits(pid as nat)]),
    }
}

/// What a request to stop the worker comes to.
#[derive(Debug)]
pub enum StopPlan {
    /// No worker is known. The request has succeeded, and nothing is to be
    /// run.
    Idle,
    /// This command is to be run; what comes of it goes to `winws_stopped`.
    Kill(CommandLine),
}

/// Decides on a request to stop the worker: with no worker known there is
/// nothing to do and nothing to run; else the worker's process is to be
/// ended by force.
pub fn stop_winws(handle: &WorkerHandle, platform: Platform) -> (plan: StopPlan)
    ensures
        handle@ == 0 <==> plan is Idle,
        plan matches StopPlan::Kill(command) ==> command@ == kill_command(platform, handle@),
{
    let pid = handle.pid;
    if pid == 0 {
        return StopPlan::Idle;
    }
    let mut args: Vec<String> = no_args();
    match platform {
        Platform::Windows => {
            push_text(&mut args, "/PID");
            push_arg(&mut args, decimal(pid));
            push_text(&mut args, "/F");
            assert(texts(args@) =~= seq!["/PID"@, decimal_digits(pid as nat), "/F"@]);
            StopPlan::Kill(quiet(platform, "taskkill", args))
        },
        Platform::Unix => {
            push_text(&mut args, "-9");
            push_arg(&mut args, decimal(pid));
            assert(texts(args@) =~= seq!["-9"@, decimal_digits(pid as nat)]);
            StopPlan::Kill(quiet(platform, "kill", args))
        },
    }
}

/// Takes what came of asking for the worker's end. Once the request was
/// made the handle is cleared, whatever became of the process, and the
/// driver service is to be removed next: the steps for that come back.
/// Where the request could not be made the handle stays, for the caller to
/// try again.
pub fn winws_stopped(handle: &mut WorkerHandle, platform: Platform, asked: Result<(), String>) -> (r:
    Result<Vec<TeardownStep>, Failure>)
    ensures
        match asked {
            Ok(_) => {
                &&& r matches Ok(steps)
                &&& step_views(steps@) == removal(platform, true, 0)
                &&& final(handle)@ == 0
            },
            Err(error) => {
                &&& r matches Err(failure)
                &&& failure@ == (
                    FailureKind::TerminationFailed,
                    "Failed to kill winws.exe: "@ + error@,
                )
                &&& final(handle)@ == old(handle)@
            },
        },
{
    match asked {
        Ok(_) => {
            set_running_pid(handle, 0);
            Ok(kill_windivert_service(platform))
        },
        Err(error) => Err(
            Failure::new(
                FailureKind::TerminationFailed,
                joined("Failed to kill winws.exe: ", error.as_str()),
            ),
        ),
    }
}

/// The command that asks whether the process `pid` is alive.
pub open spec fn liveness_command(platform: Platform, pid: u32) -> CommandView {
    match platform {
        Platform::Windows => quiet_command(
            platform,
            "tasklist"@,
            seq!["/FI"@, "PID eq "@ + decimal_digits(pid as nat)],
        ),
        Platform::Unix => quiet_command(platform, "kill"@, seq!["-0"@, decimal_digits(pid as nat)]),
    }
}

/// The command to run to learn whether the worker is alive, or `None` where
/// no worker is known and so nothing is to be asked.
pub fn liveness_probe(handle: &WorkerHandle, platform: Platform) -> (probe: Option<CommandLine>)
    ensures
        match probe {
            Some(command) => handle@ != 0 && command@ == liveness_command(platform, handle@),
            None => handle@ == 0,
        },
{
    let pid = handle.pid;
    if pid == 0 {
        return None;
    }
    let mut args: Vec<String> = no_args();
    match platform {
        Platform::Windows => {
            push_text(&mut args, "/FI");
            let mut filter = String::from_str("PID eq ");
            filter.append(decimal(pid).as_str());
            push_arg(&mut args, filter);
            assert(texts(args@) =~= seq!["/FI"@, "PID eq "@ + decimal_digits(pid as nat)]);
            Some(quiet(platform, "tasklist", args))
        },
        Platform::Unix => {
            push_text(&mut args, "-0");
            push_arg(&mut args, decimal(pid));
            assert(texts(args@) =~= seq!["-0"@, decimal_digits(pid as nat)]);
            Some(quiet(platform, "kill", args))
        },
    }
}

/// What the reply to the liveness command says of the process `pid`. On
/// Windows the process is alive where the list that came back holds its
/// identifier; elsewhere, where the command reported success. A command
/// that could not be run shows no live process.
pub open spec fn alive(platform: Platform, pid: u32, reply: Reply) -> bool {
    match reply {
        Reply::NotRun(_) => false,
        Reply::Ran { success, output } => match platform {
            Platform::Windows => contains_text(output@, decimal_digits(pid as nat)),
            Platform::Unix => success,
        },
    }
}

/// The worker with the identifier `pid` is running: a worker is known and
/// the reply to the liveness command shows it alive.
pub open spec fn running(pid: u32, platform: Platform, reply: Reply) -> bool {
    pid != 0 && alive(platform, pid, reply)
}

/// Tells whether the worker is running: never where no worker is known,
/// else as the reply to the liveness command says. That the process is not
/// found is an answer, not a failure.
pub fn is_winws_running(handle: &WorkerHandle, platform: Platform, reply: &Reply) -> (r: bool)
    ensures
        r == running(handle@, platform, *reply),
{
    let pid = handle.pid;
    if pid == 0 {
        return false;
    }
    match reply {
        Reply::NotRun(_) => false,
        Reply::Ran { success, output } => match platform {
            Platform::Windows => {
                let listed = chars_of(output.as_str());
                let wanted = chars_of(decimal(pid).as_str());
                contains(listed.as_slice(), wanted.as_slice())
            },
            Platform::Unix => *success,
        },
    }
}

/// The command that lists the processes that run the worker's image.
pub open spec fn scan_command(platform: Platform) -> CommandView {
    match platform {
        Platform::Windows => quiet_command(
            platform,
            "tasklist"@,
            seq!["/FI"@, "IMAGENAME eq winws.exe"@, "/FO"@, "CSV"@, "/NH"@],
        ),
        Platform::Unix => quiet_command(platform, "pgrep"@, seq!["winws"@]),
    }
}

/// The command to run to look for a worker that an earlier session left
/// behind.
pub fn orphan_probe(platform: Platform) -> (command: CommandLine)
    ensures
        command@ == scan_command(platform),
{
    let mut args: Vec<String> = no_args();
    match platform {
        Platform::Windows => {
            push_text(&mut args, "/FI");
            push_text(&mut args, "IMAGENAME eq winws.exe");
            push_text(&mut args, "/FO");
            push_text(&mut args, "CSV");
            push_text(&mut args, "/NH");
            assert(texts(args@) =~= seq![
                "/FI"@,
                "IMAGENAME eq winws.exe"@,
                "/FO"@,
                "CSV"@,
                "/NH"@,
            ]);
            quiet(platform, "tasklist", args)
        },
        Platform::Unix => {
            push_text(&mut args, "winws");
            assert(texts(args@) =~= seq!["winws"@]);
            quiet(platform, "pgrep", args)
        },
    }
}

/// The worker's process as the reply to the scan command shows it. A scan
/// that could not be run shows none.
pub open spec fn orphan_found(platform: Platform, reply: Reply) -> Option<u32> {
    match reply {
        Reply::NotRun(_) => None,
        Reply::Ran { output, .. } => orphan_in(platform, output@),
    }
}

/// The handle after a scan for a worker left behind: the process found,
/// whatever the handle was before, and the handle as it was where none was
/// found.
pub open spec fn adopted(before: u32, platform: Platform, reply: Reply) -> u32 {
    match orphan_found(platform, reply) {
        Some(pid) => pid,
        None => before,
    }
}

/// Takes the reply to the scan command and adopts the worker found in it.
/// Any process that runs the worker's image counts, whoever started it, and
/// the first one listed wins.
pub fn check_and_recover_orphan(handle: &mut WorkerHandle, platform: Platform, reply: &Reply) -> (found:
    Option<u32>)
    ensures
        found == orphan_found(platform, *reply),
        final(handle)@ == adopted(old(handle)@, platform, *reply),
{
    match reply {
        Reply::NotRun(_) => None,
        Reply::Ran { output, .. } => {
            let listed = chars_of(output.as_str());
            let found = find_orphan(platform, listed.as_slice());
            match found {
                Some(pid) => {
                    set_running_pid(handle, pid);
                },
                None => {},
            }
            found
        },
    }
}

/// A worker that was found again counts as running. Whatever the handle was
/// before, once a scan has found a process of the worker's image, the
/// worker is running as long as the system shows that process alive. The
/// process identifier zero is left out: it stands for no worker.
pub proof fn lemma_recovered_orphan_runs(
    before: u32,
    platform: Platform,
    scan: Reply,
    probe: Reply,
)
    requires
        orphan_found(platform, scan) matches Some(pid) && pid != 0 && alive(platform, pid, probe),
    ensures
        running(adopted(before, platform, scan), platform, probe),
{
}

/// On Windows a worker that the system lists is found again and then
/// counts as running, whatever the handle was before: so it is where the
/// process list begins with a record of the worker's image, and the list
/// asked for by that record's identifier shows the identifier.
pub proof fn lemma_listed_worker_runs(
    before: u32,
    image: Seq<char>,
    pid: u32,
    rest: Seq<char>,
    tail: Seq<char>,
    scan: Reply,
    shown_before: Seq<char>,
    shown_after: Seq<char>,
    probe: Reply,
)
    requires
        pid != 0,
        contains_text(image, worker_image()),
        forall|i: int| 0 <= i < image.len() ==> #[trigger] image[i] != ',' && image[i] != '\n',
        forall|i: int| 0 <= i < rest.len() ==> #[trigger] rest[i] != '\n',
        rest.len() == 0 || rest[0] == ',',
        scan matches Reply::Ran { output, .. } && output@ == csv_record(image, pid, rest) + seq![
            '\r',
            '\n',
        ] + tail,
        probe matches Reply::Ran { output, .. } && output@ == shown_before + decimal_digits(
            pid as nat,
        ) + shown_after,
    ensures
        adopted(before, Platform::Windows, scan) == pid,
        running(adopted(before, Platform::Windows, scan), Platform::Windows, probe),
{
    lemma_listed_worker_is_found(image, pid, rest, tail);
    lemma_contains_middle(shown_before, decimal_digits(pid as nat), shown_after);
}

/// Elsewhere a worker whose identifier stands on the first line of what
/// the scan prints is found again and then counts as running, whatever the
/// handle was before and whatever other workers the scan prints after it,
/// as long as the liveness command reports success.
pub proof fn lemma_printed_worker_runs(
    before: u32,
    pid: u32,
    tail: Seq<char>,
    scan: Reply,
    probe: Reply,
)
    requires
        pid != 0,
        scan matches Reply::Ran { output, .. } && output@ == decimal_digits(pid as nat) + seq![
            '\n',
        ] + tail,
        probe matches Reply::Ran { success, .. } && success,
    ensures
        adopted(before, Platform::Unix, scan) == pid,
        running(adopted(before, Platform::Unix, scan), Platform::Unix, probe),
{
    lemma_printed_worker_is_found(pid, tail);
}

} // verus!
