//! Tokens: runnables that are scheduled lazily, and at most once.
use crate::handle::{report_view, HandleView, RunnableHandle};
use crate::output::OutputStream;
use crate::status::{ExecutionResult, RunnableTerminated, SpawnError, Status};
use futures::stream::AbortHandle;
use vstd::prelude::*;

verus! {

/// A short-lived recipe whose main purpose is to get spawned.
pub trait Runnable {
    /// The name shown for the runnable.
    fn name(&self) -> String;

    /// Starts the runnable in directory `cwd`. Gives the handle of the
    /// execution, or the error where nothing could be started.
    fn exec(&self, cwd: Option<String>) -> Result<RunnableHandle, SpawnError>;
}

/// A source could not list its runnables.
#[derive(Debug, PartialEq, Eq)]
pub struct SourceError {
    pub message: String,
}

/// Produces runnables that can be scheduled: a file of definitions, a
/// language server that lists tests, a build server that lists targets.
pub trait Source {
    /// The kind of runnable that the source offers.
    type Runner: Runnable;

    /// The tokens of the runnables that the source offers for `path`.
    fn runnables_for_path(&mut self, path: &str) -> Result<
        Vec<RunnableToken<Self::Runner>>,
        SourceError,
    >;
}

/// What a token shows of its runnable.
#[derive(Debug, PartialEq, Eq)]
pub struct RunnableMetadata {
    source: u64,
    display_name: String,
}

impl RunnableMetadata {
    pub closed spec fn spec_source(&self) -> u64 {
        self.source
    }

    pub closed spec fn spec_display_name(&self) -> Seq<char> {
        self.display_name@
    }

    /// The metadata of a runnable that the source with id `source` offers
    /// under `display_name`.
    pub fn new(source: u64, display_name: String) -> (metadata: Self)
        ensures
            metadata.spec_source() == source,
            metadata.spec_display_name() == display_name@,
    {
        RunnableMetadata { source, display_name }
    }

    /// The id of the source that offers the runnable.
    pub fn source(&self) -> (source: u64)
        ensures
            source == self.spec_source(),
    {
        self.source
    }

    pub fn display_name(&self) -> (name: &str)
        ensures
            name@ == self.spec_display_name(),
    {
        self.display_name.as_str()
    }
}

/// Where a token stands: its runnable was not started yet, or it was, and
/// this is the handle of that one execution.
pub enum RunState<R> {
    NotScheduled(R),
    Scheduled(RunnableHandle),
}

impl<R> RunState<R> {
    /// The handle, once scheduled.
    pub open spec fn handle(self) -> Option<HandleView> {
        match self {
            RunState::NotScheduled(_) => None,
            RunState::Scheduled(handle) => Some(handle@),
        }
    }

    /// The state after one attempt to start the runnable came back. Only an
    /// unscheduled state takes a started execution in; a failed start
    /// changes nothing, and a scheduled state never changes.
    pub open spec fn after_exec(self, attempt: Result<RunnableHandle, SpawnError>) -> RunState<R> {
        match (self, attempt) {
            (RunState::NotScheduled(_), Ok(handle)) => RunState::Scheduled(handle),
            _ => self,
        }
    }

    /// What the caller of that attempt is handed: the handle that the state
    /// holds afterwards, or the error of the failed start.
    pub open spec fn exec_report(self, attempt: Result<RunnableHandle, SpawnError>) -> Result<
        HandleView,
        SpawnError,
    > {
        match (self, attempt) {
            (RunState::Scheduled(handle), _) => Ok(handle@),
            (RunState::NotScheduled(_), Ok(handle)) => Ok(handle@),
            (RunState::NotScheduled(_), Err(error)) => Err(error),
        }
    }

    /// The state after a run of attempts, the first of them first.
    pub open spec fn after_execs(self, attempts: Seq<Result<RunnableHandle, SpawnError>>) -> RunState<R>
        decreases attempts.len(),
    {
        if attempts.len() == 0 {
            self
        } else {
            self.after_exec(attempts[0]).after_execs(attempts.subrange(1, attempts.len() as int))
        }
    }

    /// Takes in what an attempt to start the runnable gave, and returns what
    /// the caller of `schedule` is handed.
    pub fn record_exec(&mut self, attempt: Result<RunnableHandle, SpawnError>) -> (report: Result<
        RunnableHandle,
        SpawnError,
    >)
        ensures
            *final(self) == old(self).after_exec(attempt),
            handle_report_view(report) == old(self).exec_report(attempt),
    {
        let scheduled: Option<RunnableHandle> = match &*self {
            RunState::Scheduled(handle) => Some(handle.clone()),
            RunState::NotScheduled(_) => None,
        };
        match scheduled {
            Some(handle) => Ok(handle),
            None => match attempt {
                Ok(handle) => {
                    let copy = handle.clone();
                    *self = RunState::Scheduled(handle);
                    Ok(copy)
                },
                Err(error) => Err(error),
            },
        }
    }
}

impl<R: Runnable> RunState<R> {
    /// What one call of `schedule` with `cwd` makes of this state. A
    /// scheduled state stays, and the call reports its handle. An
    /// unscheduled state is left as one attempt to start its own runnable,
    /// in `cwd`, leaves it, and the call reports what that attempt gave.
    pub open spec fn scheduled_by(
        self,
        cwd: Option<String>,
        after: RunState<R>,
        report: Result<HandleView, SpawnError>,
    ) -> bool {
        match self {
            RunState::Scheduled(handle) => after == self && report == Ok::<HandleView, SpawnError>(
                handle@,
            ),
            RunState::NotScheduled(runnable) => exists|attempt: Result<RunnableHandle, SpawnError>|
                call_ensures(R::exec, (&runnable, cwd), attempt) && after == self.after_exec(
                    attempt,
                ) && report == self.exec_report(attempt),
        }
    }
}

/// Whether `states` and `reports` record a run of calls of `schedule` on one
/// token: call `i` is made with `cwds[i]`, finds the token in `states[i]`,
/// leaves it in `states[i + 1]` and returns `reports[i]`.
pub open spec fn schedule_run<R: Runnable>(
    states: Seq<RunState<R>>,
    cwds: Seq<Option<String>>,
    reports: Seq<Result<HandleView, SpawnError>>,
) -> bool {
    &&& states.len() == reports.len() + 1
    &&& cwds.len() == reports.len()
    &&& forall|i: int|
        0 <= i < reports.len() ==> states[i].scheduled_by(cwds[i], states[i + 1], #[trigger] reports[i])
}

/// What `schedule` hands out, the handle by its view.
pub open spec fn handle_report_view(report: Result<RunnableHandle, SpawnError>) -> Result<
    HandleView,
    SpawnError,
> {
    match report {
        Ok(handle) => Ok(handle@),
        Err(error) => Err(error),
    }
}

/// A handle by its view, where there is one.
pub open spec fn handle_option_view(handle: Option<RunnableHandle>) -> Option<HandleView> {
    match handle {
        Some(handle) => Some(handle@),
        None => None,
    }
}

/// Represents a runnable that might or might not be already running.
pub struct RunnableToken<R: Runnable> {
    metadata: RunnableMetadata,
    state: RunState<R>,
    id: u64,
}

impl<R: Runnable> RunnableToken<R> {
    /// Where the token stands.
    pub closed spec fn state(&self) -> RunState<R> {
        self.state
    }

    pub closed spec fn spec_id(&self) -> u64 {
        self.id
    }

    pub closed spec fn spec_metadata(&self) -> RunnableMetadata {
        self.metadata
    }

    /// A token for `runnable` that was not scheduled yet.
    pub fn new(id: u64, metadata: RunnableMetadata, runnable: R) -> (token: Self)
        ensures
            token.state() == RunState::NotScheduled(runnable),
            token.spec_id() == id,
            token.spec_metadata() == metadata,
    {
        RunnableToken { metadata, state: RunState::NotScheduled(runnable), id }
    }

    /// Schedules the runnable, or returns the handle of its execution if it
    /// was scheduled before. An unscheduled token starts its runnable in
    /// `cwd`: where that gives a handle the token holds it from now on, where
    /// it fails the token is left as it was and the error is returned. A
    /// scheduled token starts nothing.
    pub fn schedule(&mut self, cwd: Option<String>) -> (report: Result<RunnableHandle, SpawnError>)
        ensures
            final(self).spec_id() == old(self).spec_id(),
            final(self).spec_metadata() == old(self).spec_metadata(),
            old(self).state().scheduled_by(cwd, final(self).state(), handle_report_view(report)),
            old(self).state() is Scheduled ==> final(self).state() == old(self).state()
                && handle_report_view(report) == Ok::<HandleView, SpawnError>(
                old(self).state().handle().unwrap(),
            ),
            old(self).state() is NotScheduled && report is Err ==> final(self).state() == old(
                self,
            ).state(),
            old(self).state() is NotScheduled && report is Ok ==> final(self).state().handle()
                == Some(report.unwrap()@),
    {
        let attempt = match &self.state {
            RunState::Scheduled(handle) => {
                return Ok(handle.clone());
            },
            RunState::NotScheduled(runnable) => runnable.exec(cwd),
        };
        self.state.record_exec(attempt)
    }

    /// The handle of the execution, if the token was scheduled.
    pub fn handle(&self) -> (handle: Option<RunnableHandle>)
        ensures
            handle_option_view(handle) == self.state().handle(),
    {
        match &self.state {
            RunState::Scheduled(handle) => Some(handle.clone()),
            RunState::NotScheduled(_) => None,
        }
    }

    /// What the execution settled to, if the token was scheduled and the
    /// execution has settled.
    pub fn result(&self) -> (report: Option<Result<ExecutionResult, RunnableTerminated>>)
        ensures
            report_view(report) == match self.state().handle() {
                Some(handle) => handle.result(),
                None => None,
            },
    {
        match &self.state {
            RunState::Scheduled(handle) => handle.result(),
            RunState::NotScheduled(_) => None,
        }
    }

    /// The token that cancels the execution, if the token was scheduled.
    pub fn cancel_handle(&self) -> (token: Option<AbortHandle>)
        ensures
            token == match self.state().handle() {
                Some(handle) => Some(handle.cancel_token),
                None => None,
            },
    {
        match &self.state {
            RunState::Scheduled(handle) => Some(handle.termination_handle()),
            RunState::NotScheduled(_) => None,
        }
    }

    pub fn was_scheduled(&self) -> (scheduled: bool)
        ensures
            scheduled == self.state() is Scheduled,
    {
        match &self.state {
            RunState::Scheduled(_) => true,
            RunState::NotScheduled(_) => false,
        }
    }

    pub fn metadata(&self) -> (metadata: &RunnableMetadata)
        ensures
            *metadata == self.spec_metadata(),
    {
        &self.metadata
    }

    pub fn id(&self) -> (id: u64)
        ensures
            id == self.spec_id(),
    {
        self.id
    }

    /// Hands one read of `stream` to the capture of the execution and returns
    /// whether the reader is to go on. An unscheduled token keeps nothing.
    pub fn record_read(&mut self, stream: OutputStream, bytes: &[u8]) -> (more: bool)
        ensures
            final(self).spec_id() == old(self).spec_id(),
            final(self).spec_metadata() == old(self).spec_metadata(),
            old(self).state() is NotScheduled ==> !more && final(self).state() == old(self).state(),
            old(self).state() is Scheduled ==> final(self).state() is Scheduled && {
                let before = old(self).state().handle().unwrap();
                let after = final(self).state().handle().unwrap();
                &&& after == before.after_read(stream, bytes@)
                &&& more == before.reads_on(stream, bytes@)
            },
    {
        match &mut self.state {
            RunState::Scheduled(handle) => handle.record_read(stream, bytes),
            RunState::NotScheduled(_) => false,
        }
    }

    /// Hands a failed read of `stream` to the capture of the execution.
    pub fn record_read_error(&mut self, stream: OutputStream)
        ensures
            final(self).spec_id() == old(self).spec_id(),
            final(self).spec_metadata() == old(self).spec_metadata(),
            old(self).state() is NotScheduled ==> final(self).state() == old(self).state(),
            old(self).state() is Scheduled ==> final(self).state() is Scheduled && {
                let before = old(self).state().handle().unwrap();
                let after = final(self).state().handle().unwrap();
                after == before.after_read_error(stream)
            },
    {
        match &mut self.state {
            RunState::Scheduled(handle) => handle.record_read_error(stream),
            RunState::NotScheduled(_) => {},
        }
    }

    /// Polls the execution of a scheduled token once, with the status of the
    /// process if it has completed, and reports what the execution has
    /// settled to. An unscheduled token is left as it is and reports nothing.
    pub fn poll(&mut self, ready: Option<Status>) -> (report: Option<
        Result<ExecutionResult, RunnableTerminated>,
    >)
        ensures
            final(self).spec_id() == old(self).spec_id(),
            final(self).spec_metadata() == old(self).spec_metadata(),
            old(self).state() is NotScheduled ==> report is None && final(self).state() == old(
                self,
            ).state(),
            old(self).state() is Scheduled ==> final(self).state() is Scheduled && {
                let before = old(self).state().handle().unwrap();
                let after = final(self).state().handle().unwrap();
                &&& (after == before.after_poll(true, ready) || after == before.after_poll(
                    false,
                    ready,
                ))
                &&& report_view(report) == after.result()
            },
    {
        match &mut self.state {
            RunState::Scheduled(handle) => handle.poll(ready),
            RunState::NotScheduled(_) => None,
        }
    }
}

/// Once a token is scheduled, no attempt changes it: it keeps its one handle
/// through every later call, however many there are.
pub proof fn lemma_scheduled_is_final<R>(
    state: RunState<R>,
    attempts: Seq<Result<RunnableHandle, SpawnError>>,
)
    requires
        state is Scheduled,
    ensures
        state.after_execs(attempts) == state,
    decreases attempts.len(),
{
    if attempts.len() > 0 {
        lemma_scheduled_is_final(state, attempts.subrange(1, attempts.len() as int));
    }
}

/// Of any run of attempts on an unscheduled token, the first that starts an
/// execution decides: the token holds that handle afterwards, and every
/// later caller is handed the same one.
pub proof fn lemma_first_start_wins<R>(
    state: RunState<R>,
    attempts: Seq<Result<RunnableHandle, SpawnError>>,
    first: int,
)
    requires
        state is NotScheduled,
        0 <= first < attempts.len(),
        attempts[first] is Ok,
        forall|i: int| 0 <= i < first ==> (#[trigger] attempts[i]) is Err,
    ensures
        state.after_execs(attempts) == RunState::<R>::Scheduled(attempts[first].unwrap()),
        forall|later: Result<RunnableHandle, SpawnError>|
            #[trigger] state.after_execs(attempts).exec_report(later) == Ok::<
                HandleView,
                SpawnError,
            >(attempts[first].unwrap()@),
    decreases attempts.len(),
{
    let rest = attempts.subrange(1, attempts.len() as int);
    if first == 0 {
        lemma_scheduled_is_final(state.after_exec(attempts[0]), rest);
    } else {
        assert(attempts[0] is Err);
        assert(rest[first - 1] == attempts[first]);
        assert forall|i: int| 0 <= i < first - 1 implies (#[trigger] rest[i]) is Err by {
            assert(rest[i] == attempts[i + 1]);
        }
        lemma_first_start_wins(state, rest, first - 1);
    }
}

/// What one call of `schedule` decides: a call that returns a handle leaves
/// the token scheduled with that handle; a call that returns an error found
/// the token unscheduled and leaves it as it was; and on a scheduled token no
/// call fails.
pub proof fn lemma_call_decides<R: Runnable>(
    before: RunState<R>,
    cwd: Option<String>,
    after: RunState<R>,
    report: Result<HandleView, SpawnError>,
)
    requires
        before.scheduled_by(cwd, after, report),
    ensures
        report is Ok ==> after.handle() == Some(report.unwrap()),
        report is Err ==> before is NotScheduled && after == before,
        before is Scheduled ==> report is Ok && after == before,
{
}

/// Through any run of calls of `schedule`, a token that is scheduled stays
/// as it is.
pub proof fn lemma_run_keeps_schedule<R: Runnable>(
    states: Seq<RunState<R>>,
    cwds: Seq<Option<String>>,
    reports: Seq<Result<HandleView, SpawnError>>,
    first: int,
    later: int,
)
    requires
        schedule_run(states, cwds, reports),
        0 <= first <= later < states.len(),
        states[first] is Scheduled,
    ensures
        states[later] == states[first],
    decreases later - first,
{
    if first < later {
        lemma_run_keeps_schedule(states, cwds, reports, first, later - 1);
        assert(states[later - 1].scheduled_by(
            cwds[later - 1],
            states[later - 1 + 1],
            reports[later - 1],
        ));
    }
}

/// A token starts at most one execution, however many calls of `schedule`
/// are made on it: from the call that leaves it scheduled on, the token
/// holds one and the same handle, every later call returns that handle, and
/// no later call takes another execution in.
pub proof fn lemma_schedule_starts_once<R: Runnable>(
    states: Seq<RunState<R>>,
    cwds: Seq<Option<String>>,
    reports: Seq<Result<HandleView, SpawnError>>,
    first: int,
)
    requires
        schedule_run(states, cwds, reports),
        0 <= first < states.len(),
        states[first] is Scheduled,
    ensures
        forall|later: int| first <= later < states.len() ==> #[trigger] states[later] == states[first],
        forall|later: int|
            first <= later < reports.len() ==> #[trigger] reports[later] == Ok::<
                HandleView,
                SpawnError,
            >(states[first].handle().unwrap()),
{
    assert forall|later: int| first <= later < states.len() implies #[trigger] states[later]
        == states[first] by {
        lemma_run_keeps_schedule(states, cwds, reports, first, later);
    }
    assert forall|later: int| first <= later < reports.len() implies #[trigger] reports[later]
        == Ok::<HandleView, SpawnError>(states[first].handle().unwrap()) by {
        lemma_run_keeps_schedule(states, cwds, reports, first, later);
        assert(states[later].scheduled_by(cwds[later], states[later + 1], reports[later]));
    }
}

} // verus!
