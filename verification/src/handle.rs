//! The handle of one execution: cancellable, and settled at most once.
use crate::output::{OutputStream, OutputView, PendingOutput};
use crate::status::{clone_status, ExecutionResult, RunnableTerminated, Status};
use futures::stream::{AbortHandle, AbortRegistration};
use vstd::prelude::*;

verus! {

/// `futures::stream::AbortHandle`, the token through which cancellation is
/// requested. Nothing inside it is visible here.
#[verifier::external_type_specification]
#[verifier::external_body]
pub struct ExAbortHandle(futures::stream::AbortHandle);

/// `futures::stream::AbortRegistration`, the half of a cancellation pair
/// that the task to cancel is wrapped with. Nothing inside it is visible
/// here.
#[verifier::external_type_specification]
#[verifier::external_body]
pub struct ExAbortRegistration(futures::stream::AbortRegistration);

/// Calls `AbortHandle::new_pair`, which makes a token and the registration
/// that belongs to it. Nothing is claimed of either.
#[verifier::external_body]
fn new_cancel_pair() -> (pair: (AbortHandle, AbortRegistration)) {
    AbortHandle::new_pair()
}

/// Calls `AbortHandle::is_aborted`, which loads the flag that the handle
/// shares with its clones. Any holder of a clone may have set it, so nothing
/// is claimed of the answer.
#[verifier::external_body]
fn abort_requested(token: &AbortHandle) -> (aborted: bool) {
    token.is_aborted()
}

/// Calls `AbortHandle::clone`, which hands out another reference to the same
/// shared flag. The contract claims that the clone is the same token.
#[verifier::external_body]
fn clone_token(token: &AbortHandle) -> (copy: AbortHandle)
    ensures
        copy == *token,
{
    token.clone()
}

/// What an execution settled to: the status of the process, or
/// `RunnableTerminated` where cancellation came first.
pub type Outcome = Result<Status, RunnableTerminated>;

/// What a handle holds.
pub struct HandleView {
    /// The outcome, once the execution has settled.
    pub outcome: Option<Outcome>,
    /// The output capture, where the execution has one.
    pub output: Option<OutputView>,
    /// The token through which cancellation is requested.
    pub cancel_token: AbortHandle,
}

impl HandleView {
    /// The handle after one poll. `aborted` says whether cancellation had
    /// been requested by then, `ready` holds the status if the process had
    /// completed. A settled handle never changes. On an unsettled one,
    /// cancellation wins over completion, and with neither it stays unsettled.
    pub open spec fn after_poll(self, aborted: bool, ready: Option<Status>) -> HandleView {
        if self.outcome is Some {
            self
        } else if aborted {
            HandleView { outcome: Some(Err(RunnableTerminated)), ..self }
        } else {
            match ready {
                Some(status) => HandleView { outcome: Some(Ok(status)), ..self },
                None => self,
            }
        }
    }

    /// The handle after a run of polls, the first of them first.
    pub open spec fn after_polls(self, polls: Seq<(bool, Option<Status>)>) -> HandleView
        decreases polls.len(),
    {
        if polls.len() == 0 {
            self
        } else {
            self.after_poll(polls[0].0, polls[0].1).after_polls(polls.subrange(1, polls.len() as int))
        }
    }

    /// The handle after one read of `stream` that returned `bytes` was
    /// handed to its capture; a handle without a capture is left as it is.
    pub open spec fn after_read(self, stream: OutputStream, bytes: Seq<u8>) -> HandleView {
        match self.output {
            Some(output) => HandleView { output: Some(output.after_read(stream, bytes)), ..self },
            None => self,
        }
    }

    /// The handle after a failed read of `stream`, which ends that stream.
    pub open spec fn after_read_error(self, stream: OutputStream) -> HandleView {
        match self.output {
            Some(output) => HandleView { output: Some(output.finish(stream)), ..self },
            None => self,
        }
    }

    /// Whether the reader of `stream` goes on after a read that returned
    /// `bytes`.
    pub open spec fn reads_on(self, stream: OutputStream, bytes: Seq<u8>) -> bool {
        match self.output {
            Some(output) => output.reads_on(stream, bytes),
            None => false,
        }
    }

    /// What the handle reports: nothing while unsettled, then the outcome,
    /// a completed one together with the output capture.
    pub open spec fn result(self) -> Option<Result<(Status, Option<OutputView>), RunnableTerminated>> {
        match self.outcome {
            None => None,
            Some(Ok(status)) => Some(Ok((status, self.output))),
            Some(Err(terminated)) => Some(Err(terminated)),
        }
    }
}

/// A report by its view.
pub open spec fn report_view(report: Option<Result<ExecutionResult, RunnableTerminated>>) -> Option<
    Result<(Status, Option<OutputView>), RunnableTerminated>,
> {
    match report {
        None => None,
        Some(Ok(result)) => Some(Ok(result@)),
        Some(Err(terminated)) => Some(Err(terminated)),
    }
}

/// A runnable that is under way, or has settled. It can be cancelled at any
/// time through its termination handle.
///
/// A handle is a plain value. The cancellation token is shared by all of
/// its clones; outcome and capture are copied, so a clone shows the
/// execution as it stood when the clone was made. The handle that a token
/// holds is the one that the host polls, and the one to ask for the outcome.
pub struct RunnableHandle {
    fut: Option<Outcome>,
    pub output: Option<PendingOutput>,
    cancel_token: AbortHandle,
}

impl View for RunnableHandle {
    type V = HandleView;

    closed spec fn view(&self) -> HandleView {
        HandleView {
            outcome: self.fut,
            output: match self.output {
                Some(output) => Some(output@),
                None => None,
            },
            cancel_token: self.cancel_token,
        }
    }
}

fn clone_output(output: &Option<PendingOutput>) -> (copy: Option<PendingOutput>)
    ensures
        copy is Some == output is Some,
        output is Some ==> copy.unwrap()@ == output.unwrap()@,
{
    match output {
        Some(output) => Some(output.clone()),
        None => None,
    }
}

fn clone_outcome(outcome: &Option<Outcome>) -> (copy: Option<Outcome>)
    ensures
        copy == *outcome,
{
    match outcome {
        None => None,
        Some(Ok(status)) => Some(Ok(clone_status(status))),
        Some(Err(terminated)) => Some(Err(*terminated)),
    }
}

impl Clone for RunnableHandle {
    fn clone(&self) -> (copy: Self)
        ensures
            copy@ == self@,
    {
        RunnableHandle {
            fut: clone_outcome(&self.fut),
            output: clone_output(&self.output),
            cancel_token: clone_token(&self.cancel_token),
        }
    }
}

impl RunnableHandle {
    /// The handle of an execution that has just started: unsettled, with the
    /// given capture and a cancellation token of its own. With it comes the
    /// registration of that token, for the task that is to be cancellable.
    pub fn new(output: Option<PendingOutput>) -> (started: (Self, AbortRegistration))
        ensures
            started.0@.outcome is None,
            started.0@.output is Some == output is Some,
            output is Some ==> started.0@.output.unwrap() == output.unwrap()@,
    {
        let (cancel_token, registration) = new_cancel_pair();
        (RunnableHandle { fut: None, output, cancel_token }, registration)
    }

    /// Returns a handle that can be used to cancel this runnable.
    pub fn termination_handle(&self) -> (token: AbortHandle)
        ensures
            token == self@.cancel_token,
    {
        clone_token(&self.cancel_token)
    }

    /// Whether the execution has settled.
    pub fn is_settled(&self) -> (settled: bool)
        ensures
            settled == self@.outcome is Some,
    {
        self.fut.is_some()
    }

    /// What the execution settled to, if it has; it never blocks.
    pub fn result(&self) -> (report: Option<Result<ExecutionResult, RunnableTerminated>>)
        ensures
            report_view(report) == self@.result(),
    {
        match &self.fut {
            None => None,
            Some(Ok(status)) => Some(
                Ok(
                    ExecutionResult {
                        status: clone_status(status),
                        output: clone_output(&self.output),
                    },
                ),
            ),
            Some(Err(terminated)) => Some(Err(*terminated)),
        }
    }

    /// Hands one read of `stream` to the capture and returns whether the
    /// reader is to go on. Without a capture nothing is kept and the reader
    /// stops. Reading goes on whether or not the execution has settled.
    pub fn record_read(&mut self, stream: OutputStream, bytes: &[u8]) -> (more: bool)
        ensures
            final(self)@ == old(self)@.after_read(stream, bytes@),
            more == old(self)@.reads_on(stream, bytes@),
    {
        match &mut self.output {
            Some(output) => output.record_read(stream, bytes),
            None => false,
        }
    }

    /// Hands a failed read of `stream` to the capture: the stream has ended.
    pub fn record_read_error(&mut self, stream: OutputStream)
        ensures
            final(self)@ == old(self)@.after_read_error(stream),
    {
        match &mut self.output {
            Some(output) => output.record_read_error(stream),
            None => {},
        }
    }

    /// One poll with the cancellation flag given: settles the handle to
    /// `RunnableTerminated` where `aborted` holds, else to `ready` where the
    /// process has completed, unless it had settled before, and reports what
    /// the handle then holds.
    pub fn settle(&mut self, aborted: bool, ready: Option<Status>) -> (report: Option<
        Result<ExecutionResult, RunnableTerminated>,
    >)
        ensures
            final(self)@ == old(self)@.after_poll(aborted, ready),
            report_view(report) == final(self)@.result(),
    {
        if self.fut.is_none() {
            if aborted {
                self.fut = Some(Err(RunnableTerminated));
            } else {
                match ready {
                    Some(status) => {
                        self.fut = Some(Ok(status));
                    },
                    None => {},
                }
            }
        }
        self.result()
    }

    /// One poll: reads the cancellation flag and settles by it. Whether
    /// cancellation had been requested is not known beforehand, so the
    /// contract holds for both answers.
    pub fn poll(&mut self, ready: Option<Status>) -> (report: Option<
        Result<ExecutionResult, RunnableTerminated>,
    >)
        ensures
            final(self)@ == old(self)@.after_poll(true, ready) || final(self)@ == old(
                self,
            )@.after_poll(false, ready),
            report_view(report) == final(self)@.result(),
            old(self)@.outcome is Some ==> final(self)@ == old(self)@,
            old(self)@.outcome is None && ready is Some ==> final(self)@.outcome is Some,
    {
        let aborted = abort_requested(&self.cancel_token);
        self.settle(aborted, ready)
    }
}

/// A settled handle replays its outcome: no run of polls changes it.
pub proof fn lemma_settled_is_final(handle: HandleView, polls: Seq<(bool, Option<Status>)>)
    requires
        handle.outcome is Some,
    ensures
        handle.after_polls(polls) == handle,
    decreases polls.len(),
{
    if polls.len() > 0 {
        lemma_settled_is_final(handle, polls.subrange(1, polls.len() as int));
    }
}

/// A handle that is polled while unsettled with cancellation requested
/// settles to `RunnableTerminated`, whether or not the process had completed
/// by then, and stays so through every later poll.
pub proof fn lemma_cancellation_is_final(handle: HandleView, polls: Seq<(bool, Option<Status>)>)
    requires
        handle.outcome is None,
        polls.len() > 0,
        polls[0].0,
    ensures
        handle.after_polls(polls).outcome == Some(Err::<Status, RunnableTerminated>(RunnableTerminated)),
{
    lemma_settled_is_final(
        handle.after_poll(polls[0].0, polls[0].1),
        polls.subrange(1, polls.len() as int),
    );
}

/// Polls that find neither cancellation nor completion leave a handle as it
/// was, however many they are.
pub proof fn lemma_idle_polls_keep(handle: HandleView, polls: Seq<(bool, Option<Status>)>)
    requires
        forall|i: int| 0 <= i < polls.len() ==> !(#[trigger] polls[i]).0 && polls[i].1 is None,
    ensures
        handle.after_polls(polls) == handle,
    decreases polls.len(),
{
    if polls.len() > 0 {
        let rest = polls.subrange(1, polls.len() as int);
        assert forall|i: int| 0 <= i < rest.len() implies !(#[trigger] rest[i]).0 && rest[i].1 is None by {
            assert(rest[i] == polls[i + 1]);
        }
        lemma_idle_polls_keep(handle, rest);
    }
}

} // verus!
