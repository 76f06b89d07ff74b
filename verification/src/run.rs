//! A run over the records of one input.
//!
//! The records come one at a time from a decoder that the caller drives. It
//! may end, or fail, at any record. The run decides what each answer of the
//! decoder leads to: a function is rendered, or the run stops, for good.

use vstd::prelude::*;
use crate::graph::{graph, graph_text};
use crate::output::{file_prefix, graph_file_prefix};
use crate::mir::{DefId, Mir, MirView, Pack};

verus! {

/// What the decoder answered when it was asked for the next record.
#[derive(Clone, Debug, PartialEq, Eq)]
pub enum Fetched {
    /// The next record.
    Record(Pack),
    /// There are no more records.
    End,
    /// The input could not be decoded any further.
    Failed,
}

/// Where a run stands.
#[derive(Clone, Copy, Debug, PartialEq, Eq, Structural)]
pub enum Phase {
    /// Records are still being taken.
    Running,
    /// The decoder came to the end of the input.
    Finished,
    /// The decoder failed.
    Failed,
}

/// What is to be written for one function.
#[derive(Clone, Debug, PartialEq, Eq)]
pub struct Rendering {
    /// The function that was rendered.
    pub def_id: DefId,
    /// The name that the function's files start with.
    pub file_prefix: String,
    /// The description of the function's graph.
    pub dot: String,
}

/// A rendering as a mathematical value.
pub struct RenderingView {
    pub def_id: DefId,
    pub file_prefix: Seq<char>,
    pub dot: Seq<char>,
}

impl View for Rendering {
    type V = RenderingView;

    open spec fn view(&self) -> RenderingView {
        RenderingView { def_id: self.def_id, file_prefix: self.file_prefix@, dot: self.dot@ }
    }
}

/// What the caller is to do after a step.
#[derive(Clone, Debug, PartialEq, Eq)]
pub enum Action {
    /// Write this rendering out, then ask the decoder again.
    Render(Rendering),
    /// Stop: every record has been rendered.
    Finish,
    /// Stop and report the failure: what was rendered before stays.
    Abort,
}

/// What is written for the function body `body`.
pub open spec fn rendering_of(body: MirView) -> RenderingView {
    RenderingView {
        def_id: body.def_id,
        file_prefix: file_prefix(body.def_id),
        dot: graph_text(body),
    }
}

/// The function body that `fetched` carries, if it is a record.
pub open spec fn record_of(fetched: Fetched) -> Option<MirView> {
    match fetched {
        Fetched::Record(Pack::Mir(mir)) => Some(mir@),
        _ => None,
    }
}

/// Where a run in `phase` stands after `fetched`. A run that has stopped
/// stays as it is.
pub open spec fn next_phase(phase: Phase, fetched: Fetched) -> Phase {
    match phase {
        Phase::Running => match fetched {
            Fetched::Record(_) => Phase::Running,
            Fetched::End => Phase::Finished,
            Fetched::Failed => Phase::Failed,
        },
        _ => phase,
    }
}

/// The function body that a run in `phase` renders on `fetched`, if any.
pub open spec fn rendered_on(phase: Phase, fetched: Fetched) -> Option<MirView> {
    match phase {
        Phase::Running => record_of(fetched),
        _ => None,
    }
}

/// Where a new run stands after `events`.
pub open spec fn phase_after(events: Seq<Fetched>) -> Phase
    decreases events.len(),
{
    if events.len() == 0 {
        Phase::Running
    } else {
        next_phase(phase_after(events.drop_last()), events.last())
    }
}

/// The function bodies that a new run renders on `events`, in this order.
pub open spec fn rendered_after(events: Seq<Fetched>) -> Seq<MirView>
    decreases events.len(),
{
    if events.len() == 0 {
        Seq::empty()
    } else {
        match rendered_on(phase_after(events.drop_last()), events.last()) {
            Some(body) => rendered_after(events.drop_last()).push(body),
            None => rendered_after(events.drop_last()),
        }
    }
}

/// The function bodies of the first `n` of `events`, which are all records.
pub open spec fn bodies(events: Seq<Fetched>, n: int) -> Seq<MirView> {
    Seq::new(n as nat, |i: int| record_of(events[i])->Some_0)
}

/// As long as the decoder hands over records, the run goes on and renders
/// each of them, in the order in which they came.
pub proof fn lemma_records_are_rendered(events: Seq<Fetched>, n: int)
    requires
        0 <= n <= events.len(),
        forall|i: int| 0 <= i < n ==> events[i] is Record,
    ensures
        phase_after(events.take(n)) == Phase::Running,
        rendered_after(events.take(n)) == bodies(events, n),
    decreases n,
{
    if n > 0 {
        lemma_records_are_rendered(events, n - 1);
        assert(events.take(n).drop_last() =~= events.take(n - 1));
        assert(events.take(n).last() == events[n - 1]);
        assert(rendered_after(events.take(n)) =~= bodies(events, n));
    } else {
        assert(rendered_after(events.take(n)) =~= bodies(events, n));
    }
}

/// Once the decoder has ended or failed, nothing that follows is rendered:
/// the run has rendered the records that came before, and stays finished if
/// the decoder ended, failed if it failed.
pub proof fn lemma_run_stops_for_good(events: Seq<Fetched>, k: int)
    requires
        0 <= k < events.len(),
        forall|i: int| 0 <= i < k ==> events[i] is Record,
        events[k] !is Record,
    ensures
        rendered_after(events) == bodies(events, k),
        phase_after(events) == (if events[k] is End {
            Phase::Finished
        } else {
            Phase::Failed
        }),
{
    lemma_stopped_at(events, k, events.len() as int);
    assert(events.take(events.len() as int) =~= events);
}

/// The state of the run at every point after the first answer that is not
/// a record.
proof fn lemma_stopped_at(events: Seq<Fetched>, k: int, m: int)
    requires
        0 <= k < m <= events.len(),
        forall|i: int| 0 <= i < k ==> events[i] is Record,
        events[k] !is Record,
    ensures
        rendered_after(events.take(m)) == bodies(events, k),
        phase_after(events.take(m)) == (if events[k] is End {
            Phase::Finished
        } else {
            Phase::Failed
        }),
    decreases m,
{
    assert(events.take(m).drop_last() =~= events.take(m - 1));
    assert(events.take(m).last() == events[m - 1]);
    if m == k + 1 {
        lemma_records_are_rendered(events, k);
    } else {
        lemma_stopped_at(events, k, m - 1);
    }
}

/// What is to be written for the function `mir`.
pub fn render(mir: &Mir) -> (rendering: Rendering)
    requires
        mir@.indexable(),
    ensures
        rendering@ == rendering_of(mir@),
{
    Rendering { def_id: mir.def_id, file_prefix: graph_file_prefix(&mir.def_id), dot: graph(mir) }
}

/// A run: it takes the decoder's answers one by one and stops at the first
/// that is not a record.
pub struct Run {
    phase: Phase,
}

impl View for Run {
    type V = Phase;

    closed spec fn view(&self) -> Phase {
        self.phase
    }
}

impl Run {
    /// A run that has not taken any record yet.
    pub fn new() -> (run: Self)
        ensures
            run@ == Phase::Running,
    {
        Run { phase: Phase::Running }
    }

    /// Where the run stands.
    pub fn phase(&self) -> (phase: Phase)
        ensures
            phase == self@,
    {
        self.phase
    }

    /// Takes the decoder's next answer and says what to do about it.
    ///
    /// While the run goes on, a record is rendered, the end of the input
    /// finishes the run, and a failure aborts it. A run that has stopped
    /// renders nothing more: it repeats how it stopped.
    pub fn step(&mut self, fetched: &Fetched) -> (action: Action)
        requires
            rendered_on(old(self)@, *fetched) matches Some(body) ==> body.indexable(),
        ensures
            final(self)@ == next_phase(old(self)@, *fetched),
            match action {
                Action::Render(rendering) => rendered_on(old(self)@, *fetched) matches Some(body)
                    && rendering@ == rendering_of(body),
                Action::Finish => rendered_on(old(self)@, *fetched) is None && final(self)@
                    == Phase::Finished,
                Action::Abort => rendered_on(old(self)@, *fetched) is None && final(self)@
                    == Phase::Failed,
            },
    {
        match self.phase {
            Phase::Running => match fetched {
                Fetched::Record(Pack::Mir(mir)) => Action::Render(render(mir)),
                Fetched::End => {
                    self.phase = Phase::Finished;
                    Action::Finish
                },
                Fetched::Failed => {
                    self.phase = Phase::Failed;
                    Action::Abort
                },
            },
            Phase::Finished => Action::Finish,
            Phase::Failed => Action::Abort,
        }
    }
}

} // verus!
