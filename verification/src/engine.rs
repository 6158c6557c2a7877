use vstd::prelude::*;

use crate::criteria::ToUninstall;
use crate::pattern::PatternCache;

verus! {

/// The outcome a module run accumulates: whether any successful uninstall
/// signalled that a reboot is required. False by default; set only by
/// successful uninstall actions.
pub struct ModuleRunInfo {
    pub reboot_required: bool,
}

impl Default for ModuleRunInfo {
    fn default() -> (r: Self)
        ensures
            !r.reboot_required,
    {
        ModuleRunInfo { reboot_required: false }
    }
}

/// A module run failed as a whole: its criteria could not be loaded or its
/// objects could not be enumerated.
pub struct ModuleError {
    name: String,
}

impl ModuleError {
    pub closed spec fn spec_name(&self) -> Seq<char> {
        self.name@
    }

    pub fn new(name: String) -> (r: Self)
        ensures
            r.spec_name() == name@,
    {
        ModuleError { name }
    }

    pub fn name(&self) -> (r: &String)
        ensures
            r@ == self.spec_name(),
    {
        &self.name
    }

    /// The operator-facing description of the failure.
    pub fn message(&self) -> (r: String)
        ensures
            r@ == "module '"@ + self.spec_name() + "' has encountered issues while running"@,
    {
        let mut s = String::from_str("module '");
        s.append(self.name.as_str());
        s.append("' has encountered issues while running");
        s
    }
}

/// Why one object's uninstall action did not remove it: the action errored,
/// or the object turned out to be gone already (a benign state, not a
/// failure). Each variant carries the label of the rule it concerns.
pub enum UninstallError {
    UninstallFailed(String),
    AlreadyUninstalled(String),
}

impl UninstallError {
    /// An uninstall action errored for the named rule.
    pub fn failed(uninstall_object: &String) -> (r: Self)
        ensures
            r matches UninstallError::UninstallFailed(s) && s@ == uninstall_object@,
    {
        UninstallError::UninstallFailed(uninstall_object.clone())
    }

    /// The named rule's object was already gone.
    pub fn uninstalled(uninstall_object: &String) -> (r: Self)
        ensures
            r matches UninstallError::AlreadyUninstalled(s) && s@ == uninstall_object@,
    {
        UninstallError::AlreadyUninstalled(uninstall_object.clone())
    }
}

/// The answer to a confirmation prompt.
#[derive(Clone, Copy, Debug, PartialEq, Eq, Structural)]
pub enum PromptResult {
    Yes,
    No,
    Cancel,
}

/// A pressed key, reduced to what the prompts distinguish.
#[derive(Clone, Copy, Debug, PartialEq, Eq, Structural)]
pub enum KeyInput {
    Char(char),
    Enter,
    Esc,
    Other,
}

/// How a yes/no/cancel prompt reads one key: 'y' or Enter accepts, 'n'
/// declines, Escape cancels, and any other key is ignored (the prompt asks
/// again).
pub fn interpret_prompt_key(key: KeyInput) -> (r: Option<PromptResult>)
    ensures
        r == match key {
            KeyInput::Char(c) => if c == 'y' {
                Option::Some(PromptResult::Yes)
            } else if c == 'n' {
                Option::Some(PromptResult::No)
            } else {
                Option::<PromptResult>::None
            },
            KeyInput::Enter => Option::Some(PromptResult::Yes),
            KeyInput::Esc => Option::Some(PromptResult::Cancel),
            KeyInput::Other => Option::<PromptResult>::None,
        },
{
    match key {
        KeyInput::Char(c) => {
            if c == 'y' {
                Option::Some(PromptResult::Yes)
            } else if c == 'n' {
                Option::Some(PromptResult::No)
            } else {
                Option::None
            }
        },
        KeyInput::Enter => Option::Some(PromptResult::Yes),
        KeyInput::Esc => Option::Some(PromptResult::Cancel),
        KeyInput::Other => Option::None,
    }
}

/// The first rule at or after `from` that matches the object, scanning the
/// rules in authored order.
pub open spec fn spec_first_match_from<T, U: ToUninstall<T>>(
    crits: Seq<U>,
    object: &T,
    from: int,
) -> Option<int>
    decreases crits.len() - from,
{
    if from < 0 || from >= crits.len() {
        Option::None
    } else if crits[from].spec_matches(object) {
        Option::Some(from)
    } else {
        spec_first_match_from(crits, object, from + 1)
    }
}

/// The first rule in authored order that matches the object, if any.
pub open spec fn spec_first_match<T, U: ToUninstall<T>>(crits: Seq<U>, object: &T) -> Option<int> {
    spec_first_match_from(crits, object, 0)
}

/// First-match-wins: when the first rule in the list matches an object, it
/// is the one selected, whatever the later rules would say.
pub proof fn lemma_first_match_wins<T, U: ToUninstall<T>>(crits: Seq<U>, object: &T)
    requires
        crits.len() >= 1,
        crits[0].spec_matches(object),
    ensures
        spec_first_match(crits, object) == Option::Some(0int),
{
}

/// Find the first rule, in authored order, that matches the object. `None`
/// means the object is skipped silently.
pub fn should_uninstall<T, U: ToUninstall<T>>(
    object: &T,
    objects_to_uninstall: &Vec<U>,
    cache: &mut PatternCache,
) -> (r: Option<usize>)
    requires
        old(cache).wf(),
    ensures
        final(cache).wf(),
        match r {
            Option::Some(i) => spec_first_match(objects_to_uninstall@, object) == Option::Some(
                i as int,
            ),
            Option::None => spec_first_match(objects_to_uninstall@, object) is None,
        },
{
    let n = objects_to_uninstall.len();
    let mut i: usize = 0;
    while i < n
        invariant
            old(cache).wf(),
            cache.wf(),
            n == objects_to_uninstall@.len(),
            i <= n,
            spec_first_match(objects_to_uninstall@, object) == spec_first_match_from(
                objects_to_uninstall@,
                object,
                i as int,
            ),
        decreases n - i,
    {
        if objects_to_uninstall[i].matches(object, cache) {
            return Option::Some(i);
        }
        i += 1;
    }
    Option::None
}

/// For each object, the index of the first rule that matches it, if any.
pub fn compute_matches<T, U: ToUninstall<T>>(
    objects: &Vec<T>,
    objects_to_uninstall: &Vec<U>,
    cache: &mut PatternCache,
) -> (r: Vec<Option<usize>>)
    requires
        old(cache).wf(),
    ensures
        final(cache).wf(),
        r@.len() == objects@.len(),
        forall|i: int|
            0 <= i < objects@.len() ==> match #[trigger] r@[i] {
                Option::Some(c) => spec_first_match(objects_to_uninstall@, &objects@[i])
                    == Option::Some(c as int),
                Option::None => spec_first_match(objects_to_uninstall@, &objects@[i]) is None,
            },
{
    let n = objects.len();
    let mut r: Vec<Option<usize>> = Vec::new();
    let mut i: usize = 0;
    while i < n
        invariant
            cache.wf(),
            n == objects@.len(),
            i <= n,
            r@.len() == i,
            forall|k: int|
                0 <= k < i ==> match #[trigger] r@[k] {
                    Option::Some(c) => spec_first_match(objects_to_uninstall@, &objects@[k])
                        == Option::Some(c as int),
                    Option::None => spec_first_match(objects_to_uninstall@, &objects@[k]) is None,
                },
        decreases n - i,
    {
        let m = should_uninstall(&objects[i], objects_to_uninstall, cache);
        r.push(m);
        i += 1;
    }
    r
}

/// The index of the first object at or after `from` that some rule matched.
pub open spec fn spec_next_match(ms: Seq<Option<usize>>, from: int) -> Option<int>
    decreases ms.len() - from,
{
    if from < 0 || from >= ms.len() {
        Option::None
    } else if ms[from] is Some {
        Option::Some(from)
    } else {
        spec_next_match(ms, from + 1)
    }
}

/// What the run loop's driver is asked to do next.
#[derive(Clone, Copy, Debug, PartialEq, Eq, Structural)]
pub enum EngineAction {
    /// Ask the user whether to uninstall this matched object.
    Confirm { object: usize, criterion: usize },
    /// Dry run: announce the intended uninstall, but perform nothing.
    AnnounceDryRun { object: usize, criterion: usize },
    /// Perform the module's uninstall action for this matched pair.
    PerformUninstall { object: usize, criterion: usize },
    /// The user declined; the object is skipped.
    Skipped { object: usize },
    /// The whole pass matched nothing; report that once.
    NothingFound,
    /// The pass is complete.
    Finished,
    /// The user cancelled; the entire run terminates immediately.
    Aborted,
}

#[derive(Clone, Copy, Debug, PartialEq, Eq, Structural)]
pub enum EnginePhase {
    Scanning,
    Confirming,
    Uninstalling,
    Done,
    Cancelled,
}

/// What one object's uninstall action reported back.
#[derive(Clone, Copy, Debug, PartialEq, Eq, Structural)]
pub enum UninstallEvent {
    /// The action completed; it may have signalled that a reboot is needed.
    Succeeded { reboot_required: bool },
    /// The object was already gone: benign, nothing recorded.
    AlreadyClean,
    /// The action errored; it is reported and the loop continues.
    Failed,
}

/// The per-module run loop as a state machine over the precomputed match
/// results. The driver performs each returned action (prompting,
/// uninstalling, printing) and feeds the outcome back in; every decision --
/// ordering, confirmation handling, dry-run suppression, cancellation,
/// result aggregation -- is made here.
pub struct Engine {
    /// For each enumerated object, the first rule that matched it, if any.
    pub matches: Vec<Option<usize>>,
    pub interactive: bool,
    pub dry_run: bool,
    /// The next object to consider (or the one being confirmed/uninstalled).
    pub idx: usize,
    /// Whether any object matched so far.
    pub found: bool,
    pub reboot_required: bool,
    pub phase: EnginePhase,
}

impl Engine {
    pub open spec fn wf(&self) -> bool {
        &&& self.idx <= self.matches@.len()
        &&& (self.phase is Confirming || self.phase is Uninstalling) ==> (self.idx
            < self.matches@.len() && self.matches@[self.idx as int] is Some)
        &&& self.phase is Confirming ==> (self.interactive && !self.dry_run)
        &&& self.dry_run ==> (!(self.phase is Uninstalling) && !self.reboot_required)
    }

    pub fn new(matches: Vec<Option<usize>>, interactive: bool, dry_run: bool) -> (r: Self)
        ensures
            r.wf(),
            r.matches == matches,
            r.interactive == interactive,
            r.dry_run == dry_run,
            r.idx == 0,
            !r.found,
            !r.reboot_required,
            r.phase is Scanning,
    {
        Engine {
            matches,
            interactive,
            dry_run,
            idx: 0,
            found: false,
            reboot_required: false,
            phase: EnginePhase::Scanning,
        }
    }

    /// Move to the next matched object and say what to do with it. In dry
    /// run the intent is announced and nothing is ever performed; in an
    /// interactive session a confirmation is requested first; otherwise the
    /// uninstall is performed directly. When no matched object remains the
    /// run completes, reporting whether anything was found at all.
    pub fn advance(&mut self) -> (r: EngineAction)
        requires
            old(self).wf(),
            old(self).phase is Scanning,
        ensures
            final(self).wf(),
            final(self).matches == old(self).matches,
            final(self).interactive == old(self).interactive,
            final(self).dry_run == old(self).dry_run,
            final(self).reboot_required == old(self).reboot_required,
            match spec_next_match(old(self).matches@, old(self).idx as int) {
                Option::None => {
                    &&& final(self).phase is Done
                    &&& final(self).found == old(self).found
                    &&& r == if old(self).found {
                        EngineAction::Finished
                    } else {
                        EngineAction::NothingFound
                    }
                },
                Option::Some(j) => {
                    &&& final(self).found
                    &&& old(self).matches@[j] matches Some(c) && if old(self).dry_run {
                        &&& r == (EngineAction::AnnounceDryRun {
                            object: j as usize,
                            criterion: c,
                        })
                        &&& final(self).phase is Scanning
                        &&& final(self).idx == j + 1
                    } else if old(self).interactive {
                        &&& r == (EngineAction::Confirm { object: j as usize, criterion: c })
                        &&& final(self).phase is Confirming
                        &&& final(self).idx == j
                    } else {
                        &&& r == (EngineAction::PerformUninstall {
                            object: j as usize,
                            criterion: c,
                        })
                        &&& final(self).phase is Uninstalling
                        &&& final(self).idx == j
                    }
                },
            },
            old(self).dry_run ==> !(r is PerformUninstall),
    {
        let n = self.matches.len();
        while self.idx < n && self.matches[self.idx].is_none()
            invariant
                self.wf(),
                n == self.matches@.len(),
                self.matches == old(self).matches,
                self.interactive == old(self).interactive,
                self.dry_run == old(self).dry_run,
                self.reboot_required == old(self).reboot_required,
                self.found == old(self).found,
                self.phase == old(self).phase,
                spec_next_match(old(self).matches@, old(self).idx as int) == spec_next_match(
                    self.matches@,
                    self.idx as int,
                ),
            decreases n - self.idx,
        {
            self.idx += 1;
        }
        if self.idx == n {
            self.phase = EnginePhase::Done;
            if self.found {
                EngineAction::Finished
            } else {
                EngineAction::NothingFound
            }
        } else {
            let criterion = match self.matches[self.idx] {
                Option::Some(c) => c,
                Option::None => {
                    proof {
                        assert(false);
                    }
                    0
                },
            };
            self.found = true;
            if self.dry_run {
                let object = self.idx;
                self.idx += 1;
                EngineAction::AnnounceDryRun { object, criterion }
            } else if self.interactive {
                self.phase = EnginePhase::Confirming;
                EngineAction::Confirm { object: self.idx, criterion }
            } else {
                self.phase = EnginePhase::Uninstalling;
                EngineAction::PerformUninstall { object: self.idx, criterion }
            }
        }
    }

    /// Apply the user's answer to the pending confirmation. No skips the
    /// object and the scan continues; Cancel terminates the entire run
    /// immediately, before any further object is considered; Yes hands the
    /// object to the uninstall action.
    pub fn confirm(&mut self, answer: PromptResult) -> (r: EngineAction)
        requires
            old(self).wf(),
            old(self).phase is Confirming,
        ensures
            final(self).wf(),
            final(self).matches == old(self).matches,
            final(self).interactive == old(self).interactive,
            final(self).dry_run == old(self).dry_run,
            final(self).reboot_required == old(self).reboot_required,
            final(self).found == old(self).found,
            match answer {
                PromptResult::Yes => {
                    &&& final(self).phase is Uninstalling
                    &&& final(self).idx == old(self).idx
                    &&& old(self).matches@[old(self).idx as int] matches Some(c) && r
                        == (EngineAction::PerformUninstall { object: old(self).idx, criterion: c })
                },
                PromptResult::No => {
                    &&& final(self).phase is Scanning
                    &&& final(self).idx == old(self).idx + 1
                    &&& r == (EngineAction::Skipped { object: old(self).idx })
                },
                PromptResult::Cancel => {
                    &&& final(self).phase is Cancelled
                    &&& final(self).idx == old(self).idx
                    &&& r == EngineAction::Aborted
                },
            },
    {
        match answer {
            PromptResult::Yes => {
                let criterion = match self.matches[self.idx] {
                    Option::Some(c) => c,
                    Option::None => {
                        proof {
                            assert(false);
                        }
                        0
                    },
                };
                self.phase = EnginePhase::Uninstalling;
                EngineAction::PerformUninstall { object: self.idx, criterion }
            },
            PromptResult::No => {
                let object = self.idx;
                let n = self.matches.len();
                assert(self.idx < n);
                self.idx += 1;
                self.phase = EnginePhase::Scanning;
                EngineAction::Skipped { object }
            },
            PromptResult::Cancel => {
                self.phase = EnginePhase::Cancelled;
                EngineAction::Aborted
            },
        }
    }

    /// Record what the uninstall action reported and move to the next
    /// object. Only a successful action can set the reboot flag; a failure
    /// is reported by the driver and the loop continues.
    pub fn uninstall_done(&mut self, event: UninstallEvent)
        requires
            old(self).wf(),
            old(self).phase is Uninstalling,
        ensures
            final(self).wf(),
            final(self).matches == old(self).matches,
            final(self).interactive == old(self).interactive,
            final(self).dry_run == old(self).dry_run,
            final(self).found == old(self).found,
            final(self).phase is Scanning,
            final(self).idx == old(self).idx + 1,
            final(self).reboot_required == (old(self).reboot_required || event matches
                UninstallEvent::Succeeded { reboot_required: true }),
    {
        match event {
            UninstallEvent::Succeeded { reboot_required } => {
                if reboot_required {
                    self.reboot_required = true;
                }
            },
            UninstallEvent::AlreadyClean => {},
            UninstallEvent::Failed => {},
        }
        let n = self.matches.len();
        assert(self.idx < n);
        self.idx += 1;
        self.phase = EnginePhase::Scanning;
    }

    /// The aggregated result of a completed run.
    pub fn result(&self) -> (r: ModuleRunInfo)
        requires
            self.phase is Done,
        ensures
            r.reboot_required == self.reboot_required,
    {
        ModuleRunInfo { reboot_required: self.reboot_required }
    }
}

/// A dry run never asks for a reboot: the engine's invariant keeps the
/// reboot flag clear whenever uninstalls are suppressed, so the aggregated
/// result of a dry run always reports `reboot_required` false.
pub proof fn lemma_dry_run_reports_no_reboot(e: Engine)
    requires
        e.wf(),
        e.dry_run,
    ensures
        !e.reboot_required,
{
}

/// The outcome the whole process accumulates across modules: whether any
/// module's run asked for a reboot.
pub struct RunState {
    pub need_reboot: bool,
}

impl RunState {
    pub fn new() -> (r: Self)
        ensures
            !r.need_reboot,
    {
        RunState { need_reboot: false }
    }

    /// Fold one module's result in: the reboot request is sticky.
    pub fn record(&mut self, info: &ModuleRunInfo)
        ensures
            final(self).need_reboot == (old(self).need_reboot || info.reboot_required),
    {
        if info.reboot_required {
            self.need_reboot = true;
        }
    }
}

/// Whether the pass may proceed without elevated privileges: only a dry
/// run, which changes nothing, may.
pub fn may_proceed(dry_run: bool, elevated: bool) -> (r: bool)
    ensures
        r == (dry_run || elevated),
{
    dry_run || elevated
}

/// The process exit code: 0 on normal completion or user cancel, 1 when a
/// module's run failed or the process lacked required privileges.
pub fn process_exit_code(module_failed: bool, lacked_privileges: bool) -> (r: i32)
    ensures
        r == if module_failed || lacked_privileges {
            1int
        } else {
            0int
        },
{
    if module_failed || lacked_privileges {
        1
    } else {
        0
    }
}

/// At the reboot offer, any key reboots except 'q', which cancels the
/// reboot.
pub fn should_reboot(key: KeyInput) -> (r: bool)
    ensures
        r == !(key matches KeyInput::Char('q')),
{
    match key {
        KeyInput::Char(c) => c != 'q',
        _ => true,
    }
}

} // verus!
