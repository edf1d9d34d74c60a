//! One signal for a batch of executions.
use crate::handle::{HandleView, RunnableHandle};
use crate::status::{ExecutionResult, RunnableTerminated};
use vstd::prelude::*;

verus! {

/// The signal shown for a batch.
#[derive(Clone, Copy, Debug, PartialEq, Eq)]
pub enum Color {
    /// Every execution succeeded.
    Success,
    /// An execution failed.
    Error,
    /// Executions are under way and none has failed.
    Modified,
}

/// How one execution counts: `Some(true)` where the process exited with
/// success, `Some(false)` where it exited with a failing status or could
/// not be waited for, `None` where the execution was cancelled.
pub open spec fn verdict(outcome: Result<ExecutionResult, RunnableTerminated>) -> Option<bool> {
    match outcome {
        Ok(result) => Some(!result.spec_failed()),
        Err(_) => None,
    }
}

/// Each registered handle by its view, under the id it was registered with.
pub open spec fn entry_views(entries: Seq<(u64, RunnableHandle)>) -> Seq<(u64, HandleView)> {
    Seq::new(entries.len(), |i: int| (entries[i].0, entries[i].1@))
}

/// The first place from `start` on at which `entries` holds a handle
/// registered as `id`, or the length of `entries` where there is none.
pub open spec fn first_from(entries: Seq<(u64, HandleView)>, id: u64, start: int) -> int
    decreases entries.len() - start,
{
    if start < 0 || start >= entries.len() {
        entries.len() as int
    } else if entries[start].0 == id {
        start
    } else {
        first_from(entries, id, start + 1)
    }
}

/// What a tracker holds.
pub struct TrackerView {
    /// `None`: executions are under way and none has failed. `Some(true)`:
    /// all have succeeded. `Some(false)`: one has failed.
    pub current_status: Option<bool>,
    /// Whether a handle was ever registered.
    pub armed: bool,
    /// Whether a failure has ended the tracking.
    pub stopped: bool,
    /// The registered handles that have not settled, each with the id that
    /// it was registered under, in the order of registration.
    pub outstanding: Seq<(u64, HandleView)>,
}

impl TrackerView {
    /// A tracker that nothing was registered with.
    pub open spec fn idle() -> TrackerView {
        TrackerView { current_status: None, armed: false, stopped: false, outstanding: Seq::empty() }
    }

    /// The tracker after `handle` was registered as `id`: it is armed; unless
    /// a failure has stopped it, the status is cleared and the handle joins
    /// the outstanding ones.
    pub open spec fn register(self, id: u64, handle: HandleView) -> TrackerView {
        if self.stopped {
            TrackerView { armed: true, ..self }
        } else {
            TrackerView {
                current_status: None,
                armed: true,
                outstanding: self.outstanding.push((id, handle)),
                ..self
            }
        }
    }

    /// The tracker after each of `handles` was registered, in order.
    pub open spec fn register_all(self, handles: Seq<(u64, HandleView)>) -> TrackerView
        decreases handles.len(),
    {
        if handles.len() == 0 {
            self
        } else {
            self.register_all(handles.drop_last()).register(handles.last().0, handles.last().1)
        }
    }

    /// Where the handle registered as `id` stands among the outstanding
    /// ones: the first place with that id, or their number where none has it.
    pub open spec fn position(self, id: u64) -> int {
        first_from(self.outstanding, id, 0)
    }

    /// The tracker after the handle registered as `id` settled with
    /// `verdict`: the first outstanding handle with that id settles. Where
    /// none has it, nothing changes.
    pub open spec fn settle_id(self, id: u64, verdict: Option<bool>) -> TrackerView {
        self.settle(self.position(id), verdict)
    }

    /// The tracker after the outstanding handle at `index` settled with
    /// `verdict`. A stopped tracker takes nothing in, and an index beyond the
    /// outstanding handles names none. Else the handle leaves them; a failure
    /// sets the status to `Some(false)` and stops the tracker; a success
    /// that leaves none outstanding sets it to `Some(true)`; anything else
    /// keeps the status.
    pub open spec fn settle(self, index: int, verdict: Option<bool>) -> TrackerView {
        if self.stopped || index < 0 || index >= self.outstanding.len() {
            self
        } else {
            let rest = self.outstanding.remove(index);
            match verdict {
                Some(false) => TrackerView {
                    current_status: Some(false),
                    stopped: true,
                    outstanding: rest,
                    ..self
                },
                Some(true) => if rest.len() == 0 {
                    TrackerView { current_status: Some(true), outstanding: rest, ..self }
                } else {
                    TrackerView { outstanding: rest, ..self }
                },
                None => TrackerView { outstanding: rest, ..self },
            }
        }
    }

    /// The signal: none before anything was registered, then by the status.
    pub open spec fn color(self) -> Option<Color> {
        if !self.armed {
            None
        } else {
            match self.current_status {
                Some(true) => Some(Color::Success),
                Some(false) => Some(Color::Error),
                None => Some(Color::Modified),
            }
        }
    }

    /// What holds of every tracker: before the first registration it is
    /// idle; it reports failure exactly when stopped; and it reports success
    /// only with nothing outstanding.
    pub open spec fn wf(self) -> bool {
        &&& !self.armed ==> self == TrackerView::idle()
        &&& self.stopped <==> self.current_status == Some(false)
        &&& self.current_status == Some(true) ==> self.outstanding.len() == 0
    }
}

/// Tracks the status of a batch of runnables: whether any has failed, all
/// have succeeded, or some are still under way.
pub struct StatusIconTracker {
    current_status: Option<bool>,
    armed: bool,
    stopped: bool,
    outstanding: Vec<(u64, RunnableHandle)>,
}

impl View for StatusIconTracker {
    type V = TrackerView;

    closed spec fn view(&self) -> TrackerView {
        TrackerView {
            current_status: self.current_status,
            armed: self.armed,
            stopped: self.stopped,
            outstanding: entry_views(self.outstanding@),
        }
    }
}

impl StatusIconTracker {
    /// A tracker with each of `runnables` registered under the id that
    /// comes with it, in order.
    pub fn new(runnables: Vec<(u64, RunnableHandle)>) -> (tracker: Self)
        ensures
            tracker@ == TrackerView::idle().register_all(entry_views(runnables@)),
            tracker@ == (TrackerView {
                current_status: None,
                armed: runnables@.len() > 0,
                stopped: false,
                outstanding: entry_views(runnables@),
            }),
            tracker@.wf(),
    {
        let armed = runnables.len() > 0;
        let tracker = StatusIconTracker {
            current_status: None,
            armed,
            stopped: false,
            outstanding: runnables,
        };
        proof {
            lemma_register_all(TrackerView::idle(), entry_views(runnables@));
            assert(tracker@.outstanding =~= Seq::<(u64, HandleView)>::empty() + entry_views(
                runnables@,
            ));
        }
        tracker
    }

    /// Registers one more handle, under `id`.
    pub fn push(&mut self, id: u64, handle: RunnableHandle)
        ensures
            final(self)@ == old(self)@.register(id, handle@),
            old(self)@.wf() ==> final(self)@.wf(),
    {
        self.armed = true;
        if !self.stopped {
            self.current_status = None;
            self.outstanding.push((id, handle));
            assert(self@.outstanding =~= old(self)@.outstanding.push((id, handle@)));
        }
    }

    /// Where the handle registered as `id` stands among the outstanding
    /// ones.
    fn position(&self, id: u64) -> (index: usize)
        ensures
            index == self@.position(id),
            index <= self@.outstanding.len(),
    {
        let mut index: usize = 0;
        while index < self.outstanding.len() && self.outstanding[index].0 != id
            invariant
                index <= self.outstanding.len(),
                forall|j: int| 0 <= j < index ==> self@.outstanding[j].0 != id,
            decreases self.outstanding.len() - index,
        {
            index += 1;
        }
        proof {
            lemma_first_from(self@.outstanding, id, 0, index as int);
        }
        index
    }

    /// Takes in that the handle registered as `id` settled with `outcome`.
    /// Of several outstanding handles with that id the first settles;
    /// without one, nothing changes.
    pub fn finished(&mut self, id: u64, outcome: &Result<ExecutionResult, RunnableTerminated>)
        ensures
            final(self)@ == old(self)@.settle_id(id, verdict(*outcome)),
            old(self)@.wf() ==> final(self)@.wf(),
    {
        let index = self.position(id);
        if self.stopped || index >= self.outstanding.len() {
            return ;
        }
        let _ = self.outstanding.remove(index);
        assert(self@.outstanding =~= old(self)@.outstanding.remove(index as int));
        match outcome {
            Ok(result) => {
                if result.failed() {
                    self.current_status = Some(false);
                    self.stopped = true;
                } else if self.outstanding.len() == 0 {
                    self.current_status = Some(true);
                }
            },
            Err(_) => {},
        }
    }

    /// The status: see [`TrackerView::current_status`].
    pub fn current_status(&self) -> (status: Option<bool>)
        ensures
            status == self@.current_status,
    {
        self.current_status
    }

    /// How many registered handles have not settled.
    pub fn outstanding(&self) -> (count: usize)
        ensures
            count == self@.outstanding.len(),
    {
        self.outstanding.len()
    }

    /// The signal of the batch, or `None` where nothing was ever registered.
    pub fn color(&self) -> (color: Option<Color>)
        ensures
            color == self@.color(),
    {
        if !self.armed {
            return None;
        }
        let color = match self.current_status {
            Some(true) => Color::Success,
            Some(false) => Color::Error,
            None => Color::Modified,
        };
        Some(color)
    }
}

/// Where no handle from `start` up to `index` is registered as `id`, and
/// the one at `index` is, or `index` is the end, the search from `start`
/// gives `index`.
pub proof fn lemma_first_from(entries: Seq<(u64, HandleView)>, id: u64, start: int, index: int)
    requires
        0 <= start <= index <= entries.len(),
        forall|j: int| start <= j < index ==> entries[j].0 != id,
        index == entries.len() || entries[index].0 == id,
    ensures
        first_from(entries, id, start) == index,
    decreases index - start,
{
    if start < index {
        lemma_first_from(entries, id, start + 1, index);
    }
}

/// Registering a run of handles with a tracker that is not stopped arms it
/// if there is any, clears the status if there is any, and appends them all.
pub proof fn lemma_register_all(tracker: TrackerView, handles: Seq<(u64, HandleView)>)
    requires
        !tracker.stopped,
    ensures
        tracker.register_all(handles) == (TrackerView {
            current_status: if handles.len() > 0 {
                None
            } else {
                tracker.current_status
            },
            armed: tracker.armed || handles.len() > 0,
            stopped: false,
            outstanding: tracker.outstanding + handles,
        }),
    decreases handles.len(),
{
    if handles.len() == 0 {
        assert(tracker.outstanding + handles =~= tracker.outstanding);
    } else {
        lemma_register_all(tracker, handles.drop_last());
        assert((tracker.outstanding + handles.drop_last()).push(handles.last())
            =~= tracker.outstanding + handles);
    }
}

/// A tracker shows no signal exactly until the first handle is registered:
/// no event disarms it, and only a registration arms it.
pub proof fn lemma_armed_by_registration(
    tracker: TrackerView,
    id: u64,
    handle: HandleView,
    verdict: Option<bool>,
)
    ensures
        TrackerView::idle().color() is None,
        tracker.register(id, handle).color() is Some,
        tracker.settle_id(id, verdict).armed == tracker.armed,
        tracker.color() is None <==> !tracker.armed,
{
}

/// Failure is sticky: a stopped tracker shows `Error` through every later
/// registration and every later outcome.
pub proof fn lemma_failure_is_sticky(
    tracker: TrackerView,
    id: u64,
    handle: HandleView,
    verdict: Option<bool>,
)
    requires
        tracker.wf(),
        tracker.armed,
        tracker.stopped,
    ensures
        tracker.color() == Some(Color::Error),
        tracker.register(id, handle) == tracker,
        tracker.settle_id(id, verdict) == tracker,
{
}

/// Every event keeps a well-formed tracker well formed.
pub proof fn lemma_events_keep_wf(
    tracker: TrackerView,
    id: u64,
    handle: HandleView,
    verdict: Option<bool>,
)
    requires
        tracker.wf(),
    ensures
        TrackerView::idle().wf(),
        tracker.register(id, handle).wf(),
        tracker.settle_id(id, verdict).wf(),
{
}

/// The outcome of the last outstanding handle decides an unstopped batch:
/// success shows `Success`, failure shows `Error`.
pub proof fn lemma_last_outcome_decides(tracker: TrackerView, completed_ok: bool)
    requires
        tracker.wf(),
        tracker.armed,
        !tracker.stopped,
        tracker.outstanding.len() == 1,
    ensures
        tracker.settle_id(tracker.outstanding[0].0, Some(completed_ok)).color() == Some(
            if completed_ok {
                Color::Success
            } else {
                Color::Error
            },
        ),
{
}

} // verus!
