use vstd::prelude::*;

use crate::criteria::UninstallMethod;
use crate::text::{
    contains_substring, parent_directory, spec_contains, spec_parent_dir, spec_split, split_on,
};

verus! {

/// The grace period, in milliseconds, granted after launching a deferred
/// uninstaller before the process table is scanned for its delegate.
pub const GRACE_PERIOD_MS: u64 = 500;

/// How often, in milliseconds, a cancellable wait polls between attempts.
pub const POLL_INTERVAL_MS: u64 = 20;

pub open spec fn spec_is_ascii_letter(c: char) -> bool {
    (97 <= c as u32 && c as u32 <= 122) || (65 <= c as u32 && c as u32 <= 90)
}

fn is_ascii_letter(c: char) -> (r: bool)
    ensures
        r == spec_is_ascii_letter(c),
{
    let u = c as u32;
    (97 <= u && u <= 122) || (65 <= u && u <= 90)
}

/// Position `j` ends a program path: a dot followed by a three-letter
/// extension.
pub open spec fn spec_ext_at(s: Seq<char>, j: int) -> bool {
    &&& 0 <= j
    &&& j + 4 <= s.len()
    &&& s[j] == '.'
    &&& spec_is_ascii_letter(s[j + 1])
    &&& spec_is_ascii_letter(s[j + 2])
    &&& spec_is_ascii_letter(s[j + 3])
}

/// The first extension position at or after `from`.
pub open spec fn spec_first_ext_from(s: Seq<char>, from: int) -> Option<int>
    decreases s.len() - from,
{
    if from < 0 || from + 4 > s.len() {
        Option::None
    } else if spec_ext_at(s, from) {
        Option::Some(from)
    } else {
        spec_first_ext_from(s, from + 1)
    }
}

/// Where the program path begins: after a leading quote, if there is one.
pub open spec fn spec_parse_start(s: Seq<char>) -> int {
    if s.len() > 0 && s[0] == '"' {
        1int
    } else {
        0int
    }
}

/// Parsing an uninstall command line: the program is the first token from
/// the start (a leading quote is skipped) through the first dot-plus-three-
/// letter extension; a quote right after it is skipped; a following space
/// separates the argument text, which is absent otherwise. A command line
/// without such an extension-terminated token does not parse.
pub open spec fn spec_parse_command(s: Seq<char>) -> Option<(Seq<char>, Option<Seq<char>>)> {
    let start = spec_parse_start(s);
    match spec_first_ext_from(s, start) {
        Option::None => Option::None,
        Option::Some(j) => {
            let end = if j + 4 < s.len() && s[j + 4] == '"' {
                j + 5
            } else {
                j + 4
            };
            let args = if end < s.len() && s[end] == ' ' {
                Option::Some(s.skip(end + 1))
            } else {
                Option::None
            };
            Option::Some((s.subrange(start, j + 4), args))
        },
    }
}

/// A parsed uninstall command line: the program path and its arguments
/// (the argument text split on single spaces; empty when there was none).
pub struct CommandParts {
    pub program: String,
    pub args: Vec<String>,
}

/// Parse an uninstall command line into program and arguments. `None` when
/// no extension-terminated program token is found.
pub fn parse_command_line(s: &String) -> (r: Option<CommandParts>)
    ensures
        match spec_parse_command(s@) {
            Option::None => r is None,
            Option::Some(parsed) => {
                &&& r matches Some(parts)
                &&& parts.program@ == parsed.0
                &&& parts.args.deep_view() == match parsed.1 {
                    Option::Some(a) => spec_split(a, ' '),
                    Option::None => Seq::<Seq<char>>::empty(),
                }
            },
        },
{
    let len = s.as_str().unicode_len();
    let start: usize = if len > 0 && s.as_str().get_char(0) == '"' {
        1
    } else {
        0
    };
    if len < 4 || start + 4 > len {
        return Option::None;
    }
    let mut j: usize = start;
    while j <= len - 4
        invariant
            start <= j,
            j <= len - 4 + 1,
            4 <= len == s@.len(),
            start + 4 <= len,
            start as int == spec_parse_start(s@),
            spec_first_ext_from(s@, start as int) == spec_first_ext_from(s@, j as int),
        decreases len - j,
    {
        if s.as_str().get_char(j) == '.' && is_ascii_letter(s.as_str().get_char(j + 1))
            && is_ascii_letter(s.as_str().get_char(j + 2)) && is_ascii_letter(
            s.as_str().get_char(j + 3),
        ) {
            proof {
                assert(spec_ext_at(s@, j as int));
                assert(spec_first_ext_from(s@, j as int) == Option::Some(j as int));
                assert(spec_first_ext_from(s@, spec_parse_start(s@)) == Option::Some(j as int));
            }
            let program = String::from_str(s.as_str().substring_char(start, j + 4));
            let end: usize = if j + 4 < len && s.as_str().get_char(j + 4) == '"' {
                j + 5
            } else {
                j + 4
            };
            let args: Vec<String> = if end < len && s.as_str().get_char(end) == ' ' {
                let tail = String::from_str(s.as_str().substring_char(end + 1, len));
                proof {
                    assert(tail@ =~= s@.skip(end + 1));
                }
                split_on(&tail, ' ')
            } else {
                let v: Vec<String> = Vec::new();
                proof {
                    assert(v.deep_view() =~= Seq::<Seq<char>>::empty());
                }
                v
            };
            return Option::Some(CommandParts { program, args });
        }
        proof {
            assert(!spec_ext_at(s@, j as int));
            assert(spec_first_ext_from(s@, j as int) == spec_first_ext_from(s@, j + 1));
        }
        j += 1;
    }
    Option::None
}

/// One row of the live process table, reduced to what the delegate scan
/// reads.
pub struct ProcessInfo {
    pub process_id: u32,
    pub parent_process_id: u32,
    pub command_line: Option<String>,
}

/// A process is a delegate candidate when it is a direct child of the
/// launched process and its command line references the launched program's
/// containing directory.
pub open spec fn spec_is_delegate(p: ProcessInfo, parent: u32, target_dir: Seq<char>) -> bool {
    &&& p.parent_process_id == parent
    &&& match p.command_line {
        Option::Some(c) => spec_contains(c@, target_dir),
        Option::None => false,
    }
}

/// The first delegate candidate at or after `from`, in table order.
pub open spec fn spec_first_delegate_from(
    ps: Seq<ProcessInfo>,
    parent: u32,
    target_dir: Seq<char>,
    from: int,
) -> Option<int>
    decreases ps.len() - from,
{
    if from < 0 || from >= ps.len() {
        Option::None
    } else if spec_is_delegate(ps[from], parent, target_dir) {
        Option::Some(from)
    } else {
        spec_first_delegate_from(ps, parent, target_dir, from + 1)
    }
}

/// The first delegate candidate in the process table, if any.
pub open spec fn spec_first_delegate(
    ps: Seq<ProcessInfo>,
    parent: u32,
    target_dir: Seq<char>,
) -> Option<int> {
    spec_first_delegate_from(ps, parent, target_dir, 0)
}

/// Scan the process table for the launched process's delegate: the first
/// direct child whose command line references the target directory. The
/// heuristic is best-effort by design.
pub fn find_delegate(processes: &Vec<ProcessInfo>, parent: u32, target_dir: &String) -> (r: Option<
    u32,
>)
    ensures
        match spec_first_delegate(processes@, parent, target_dir@) {
            Option::Some(i) => r == Option::Some(processes@[i].process_id),
            Option::None => r is None,
        },
{
    let n = processes.len();
    let mut i: usize = 0;
    while i < n
        invariant
            n == processes@.len(),
            i <= n,
            spec_first_delegate(processes@, parent, target_dir@) == spec_first_delegate_from(
                processes@,
                parent,
                target_dir@,
                i as int,
            ),
        decreases n - i,
    {
        let p = &processes[i];
        if p.parent_process_id == parent {
            let found = match &p.command_line {
                Option::Some(c) => contains_substring(c, target_dir),
                Option::None => false,
            };
            if found {
                return Option::Some(p.process_id);
            }
        }
        i += 1;
    }
    Option::None
}

/// How launching the uninstaller went.
#[derive(Clone, Copy, Debug, PartialEq, Eq, Structural)]
pub enum SpawnOutcome {
    /// The process started; its process id.
    Spawned(u32),
    /// The uninstaller binary does not exist: the package is treated as
    /// already uninstalled, not as a failure.
    ProgramNotFound,
    /// Launching failed for another reason.
    LaunchError,
}

/// What the supervised uninstall action reports when it finishes.
#[derive(Clone, Copy, Debug, PartialEq, Eq, Structural)]
pub enum SupervisorOutcome {
    Success,
    AlreadyUninstalled,
    Failed,
}

/// Where the supervised action stands.
#[derive(Clone, Copy, Debug, PartialEq, Eq, Structural)]
pub enum SupervisorState {
    /// The uninstaller is about to be launched.
    Launching,
    /// Deferred only: the grace period is running so a delegate may spawn.
    GraceWait { main_pid: u32 },
    /// Deferred only: the process table is being queried.
    Scanning { main_pid: u32 },
    /// Only the launched process's exit is awaited.
    AwaitingMain { main_pid: u32 },
    /// Both the launched process's and the delegate's exits are awaited.
    AwaitingBoth { main_pid: u32, delegate_pid: u32 },
    /// The launched process exited cleanly; the delegate is still awaited.
    AwaitingDelegate { delegate_pid: u32 },
    /// The action is over.
    Finished { outcome: SupervisorOutcome },
}

/// The deferred-uninstall supervisor as a state machine. The driver
/// launches the process, sleeps, queries the process table and performs
/// the waits; every decision -- missing binary means already uninstalled,
/// whether to track a delegate, which waits remain, how wait errors turn
/// into the outcome -- is made here.
pub struct Supervisor {
    /// Whether the launched uninstaller is expected to hand its work to a
    /// delegate process that must also be awaited.
    pub deferred: bool,
    /// The launched program's containing directory, which a delegate's
    /// command line is expected to reference.
    pub target_dir: String,
    pub state: SupervisorState,
}

impl Supervisor {
    /// Prepare a supervised uninstall: parse the command line; the launch
    /// request is returned alongside. `None` when the command line does
    /// not parse, which fails the action before anything is launched.
    pub fn new(method: UninstallMethod, command_line: &String) -> (r: Option<(
        Supervisor,
        CommandParts,
    )>)
        requires
            !(method is RegistryOnly),
        ensures
            match spec_parse_command(command_line@) {
                Option::None => r is None,
                Option::Some(parsed) => {
                    &&& r matches Some((sup, parts))
                    &&& parts.program@ == parsed.0
                    &&& parts.args.deep_view() == match parsed.1 {
                        Option::Some(a) => spec_split(a, ' '),
                        Option::None => Seq::<Seq<char>>::empty(),
                    }
                    &&& sup.deferred == (method is Deferred)
                    &&& sup.target_dir@ == spec_parent_dir(parsed.0)
                    &&& sup.state is Launching
                },
            },
    {
        match parse_command_line(command_line) {
            Option::Some(parts) => {
                let target_dir = parent_directory(&parts.program);
                let sup = Supervisor {
                    deferred: match method {
                        UninstallMethod::Deferred => true,
                        _ => false,
                    },
                    target_dir,
                    state: SupervisorState::Launching,
                };
                Option::Some((sup, parts))
            },
            Option::None => Option::None,
        }
    }

    /// Record how the launch went. A missing binary ends the action as
    /// already uninstalled; any other launch error fails it. On success a
    /// normal action awaits the process directly, while a deferred action
    /// first grants the grace period.
    pub fn on_spawn(&mut self, outcome: SpawnOutcome)
        requires
            old(self).state is Launching,
        ensures
            final(self).deferred == old(self).deferred,
            final(self).target_dir == old(self).target_dir,
            final(self).state == match outcome {
                SpawnOutcome::ProgramNotFound => (SupervisorState::Finished {
                    outcome: SupervisorOutcome::AlreadyUninstalled,
                }),
                SpawnOutcome::LaunchError => (SupervisorState::Finished {
                    outcome: SupervisorOutcome::Failed,
                }),
                SpawnOutcome::Spawned(pid) => if old(self).deferred {
                    (SupervisorState::GraceWait { main_pid: pid })
                } else {
                    (SupervisorState::AwaitingMain { main_pid: pid })
                },
            },
    {
        self.state = match outcome {
            SpawnOutcome::ProgramNotFound => SupervisorState::Finished {
                outcome: SupervisorOutcome::AlreadyUninstalled,
            },
            SpawnOutcome::LaunchError => SupervisorState::Finished {
                outcome: SupervisorOutcome::Failed,
            },
            SpawnOutcome::Spawned(pid) => if self.deferred {
                SupervisorState::GraceWait { main_pid: pid }
            } else {
                SupervisorState::AwaitingMain { main_pid: pid }
            },
        };
    }

    /// The grace period has elapsed: the process table may now be scanned.
    pub fn on_grace_elapsed(&mut self)
        requires
            old(self).state matches SupervisorState::GraceWait { .. },
        ensures
            final(self).deferred == old(self).deferred,
            final(self).target_dir == old(self).target_dir,
            old(self).state matches SupervisorState::GraceWait { main_pid } && final(self).state
                == (SupervisorState::Scanning { main_pid }),
    {
        let main_pid = match self.state {
            SupervisorState::GraceWait { main_pid } => main_pid,
            _ => {
                proof {
                    assert(false);
                }
                0
            },
        };
        self.state = SupervisorState::Scanning { main_pid };
    }

    /// Decide from the process-table snapshot what to await: when a
    /// delegate is found both exits are required, otherwise only the
    /// launched process's exit is awaited.
    pub fn on_process_snapshot(&mut self, processes: &Vec<ProcessInfo>)
        requires
            old(self).state matches SupervisorState::Scanning { .. },
        ensures
            final(self).deferred == old(self).deferred,
            final(self).target_dir == old(self).target_dir,
            old(self).state matches SupervisorState::Scanning { main_pid } && final(self).state
                == match spec_first_delegate(processes@, main_pid, old(self).target_dir@) {
                Option::Some(i) => (SupervisorState::AwaitingBoth {
                    main_pid,
                    delegate_pid: processes@[i].process_id,
                }),
                Option::None => (SupervisorState::AwaitingMain { main_pid }),
            },
    {
        let main_pid = match self.state {
            SupervisorState::Scanning { main_pid } => main_pid,
            _ => {
                proof {
                    assert(false);
                }
                0
            },
        };
        self.state = match find_delegate(processes, main_pid, &self.target_dir) {
            Option::Some(delegate_pid) => SupervisorState::AwaitingBoth {
                main_pid,
                delegate_pid,
            },
            Option::None => SupervisorState::AwaitingMain { main_pid },
        };
    }

    /// The launched process exited, cleanly or not. When it was the only
    /// wait, its result decides the outcome; when a delegate is also
    /// awaited, a clean exit leaves the delegate wait standing and an
    /// error fails the whole action.
    pub fn on_main_exit(&mut self, ok: bool)
        requires
            old(self).state matches SupervisorState::AwaitingMain { .. } || old(
                self,
            ).state matches SupervisorState::AwaitingBoth { .. },
        ensures
            final(self).deferred == old(self).deferred,
            final(self).target_dir == old(self).target_dir,
            final(self).state == match old(self).state {
                SupervisorState::AwaitingMain { .. } => (SupervisorState::Finished {
                    outcome: if ok {
                        SupervisorOutcome::Success
                    } else {
                        SupervisorOutcome::Failed
                    },
                }),
                SupervisorState::AwaitingBoth { delegate_pid, .. } => if ok {
                    (SupervisorState::AwaitingDelegate { delegate_pid })
                } else {
                    (SupervisorState::Finished { outcome: SupervisorOutcome::Failed })
                },
                _ => old(self).state,
            },
    {
        self.state = match self.state {
            SupervisorState::AwaitingMain { .. } => SupervisorState::Finished {
                outcome: if ok {
                    SupervisorOutcome::Success
                } else {
                    SupervisorOutcome::Failed
                },
            },
            SupervisorState::AwaitingBoth { delegate_pid, .. } => if ok {
                SupervisorState::AwaitingDelegate { delegate_pid }
            } else {
                SupervisorState::Finished { outcome: SupervisorOutcome::Failed }
            },
            _ => {
                proof {
                    assert(false);
                }
                self.state
            },
        };
    }

    /// The delegate process exited, cleanly or not. An error fails the
    /// action; a clean exit leaves the main wait standing when it has not
    /// completed yet, and completes the action when it has.
    pub fn on_delegate_exit(&mut self, ok: bool)
        requires
            old(self).state matches SupervisorState::AwaitingBoth { .. } || old(
                self,
            ).state matches SupervisorState::AwaitingDelegate { .. },
        ensures
            final(self).deferred == old(self).deferred,
            final(self).target_dir == old(self).target_dir,
            final(self).state == match old(self).state {
                SupervisorState::AwaitingBoth { main_pid, .. } => if ok {
                    (SupervisorState::AwaitingMain { main_pid })
                } else {
                    (SupervisorState::Finished { outcome: SupervisorOutcome::Failed })
                },
                SupervisorState::AwaitingDelegate { .. } => (SupervisorState::Finished {
                    outcome: if ok {
                        SupervisorOutcome::Success
                    } else {
                        SupervisorOutcome::Failed
                    },
                }),
                _ => old(self).state,
            },
    {
        self.state = match self.state {
            SupervisorState::AwaitingBoth { main_pid, .. } => if ok {
                SupervisorState::AwaitingMain { main_pid }
            } else {
                SupervisorState::Finished { outcome: SupervisorOutcome::Failed }
            },
            SupervisorState::AwaitingDelegate { .. } => SupervisorState::Finished {
                outcome: if ok {
                    SupervisorOutcome::Success
                } else {
                    SupervisorOutcome::Failed
                },
            },
            _ => {
                proof {
                    assert(false);
                }
                self.state
            },
        };
    }

    /// The outcome of a finished action.
    pub fn outcome(&self) -> (r: SupervisorOutcome)
        requires
            self.state matches SupervisorState::Finished { .. },
        ensures
            self.state matches SupervisorState::Finished { outcome } && r == outcome,
    {
        match self.state {
            SupervisorState::Finished { outcome } => outcome,
            _ => {
                proof {
                    assert(false);
                }
                SupervisorOutcome::Failed
            },
        }
    }
}

/// What the interactive race decides: a user keypress asserts that the
/// uninstall is complete and counts as success; otherwise the action's own
/// result stands.
#[derive(Clone, Copy, Debug, PartialEq, Eq, Structural)]
pub enum RaceEvent {
    ActionCompleted(SupervisorOutcome),
    UserKeyPressed,
}

pub fn race_outcome(event: RaceEvent) -> (r: SupervisorOutcome)
    ensures
        r == match event {
            RaceEvent::ActionCompleted(o) => o,
            RaceEvent::UserKeyPressed => SupervisorOutcome::Success,
        },
{
    match event {
        RaceEvent::ActionCompleted(o) => o,
        RaceEvent::UserKeyPressed => SupervisorOutcome::Success,
    }
}

/// What one poll of a cancellable process wait reported.
#[derive(Clone, Copy, Debug, PartialEq, Eq, Structural)]
pub enum WaitSignal {
    /// The process has exited.
    Completed,
    /// The wait handle was abandoned; treated as an exit.
    Abandoned,
    /// The process is still running.
    StillRunning,
    /// The wait itself failed.
    WaitFailed,
}

/// What the polling loop does next.
#[derive(Clone, Copy, Debug, PartialEq, Eq, Structural)]
pub enum WaitStep {
    /// The wait is over: the process exited.
    Done,
    /// Sleep one poll interval and poll again.
    Retry,
    /// The wait was cancelled between polls; it ends without the process.
    CancelledTimeout,
    /// The wait failed and the failure propagates.
    Failed,
}

/// One step of a cancellable process wait: an exit (or abandoned handle)
/// ends the wait; while the process runs, the cancellation token is
/// observed between polls and ends the wait promptly once signalled; a
/// wait failure propagates.
pub fn wait_poll_step(signal: WaitSignal, cancelled: bool) -> (r: WaitStep)
    ensures
        r == match signal {
            WaitSignal::Completed => WaitStep::Done,
            WaitSignal::Abandoned => WaitStep::Done,
            WaitSignal::StillRunning => if cancelled {
                WaitStep::CancelledTimeout
            } else {
                WaitStep::Retry
            },
            WaitSignal::WaitFailed => WaitStep::Failed,
        },
{
    match signal {
        WaitSignal::Completed => WaitStep::Done,
        WaitSignal::Abandoned => WaitStep::Done,
        WaitSignal::StillRunning => if cancelled {
            WaitStep::CancelledTimeout
        } else {
            WaitStep::Retry
        },
        WaitSignal::WaitFailed => WaitStep::Failed,
    }
}

/// The registry key under which uninstall entries live, for native and for
/// 32-bit-on-64-bit packages.
pub fn registry_base_key(x86: bool) -> (r: String)
    ensures
        r@ == if x86 {
            "SOFTWARE\\WOW6432Node\\Microsoft\\Windows\\CurrentVersion\\Uninstall"@
        } else {
            "SOFTWARE\\Microsoft\\Windows\\CurrentVersion\\Uninstall"@
        },
{
    if x86 {
        String::from_str("SOFTWARE\\WOW6432Node\\Microsoft\\Windows\\CurrentVersion\\Uninstall")
    } else {
        String::from_str("SOFTWARE\\Microsoft\\Windows\\CurrentVersion\\Uninstall")
    }
}

} // verus!
