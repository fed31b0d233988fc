use vstd::prelude::*;

use crate::build_info::LoaderResult;
use crate::diagnostic::{Diagnostic, InternalError, Severity};
use crate::loader_context::{LoaderContext, LoaderItem};

verus! {

/// Where a run of a loader chain stands.
#[derive(Clone, Copy, Debug, PartialEq, Eq, Structural)]
pub enum RunPhase {
    /// Steps are pitched, first to last.
    Pitching,
    /// Steps are run, last to first.
    Running,
    Done,
}

/// What is to be done next in a run.
#[derive(Clone, Copy, Debug, PartialEq, Eq, Structural)]
pub enum LoaderStep {
    /// The step at this position is to pitch.
    Pitch(usize),
    /// No step produced content while pitching: the resource is to be read
    /// into the context.
    ProcessResource,
    /// The step at this position is to run.
    Normal(usize),
    /// Nothing is left to do.
    Finish,
}

/// The run of a loader chain: the phase, and how far it has come. While
/// pitching, `cursor` is the first position that may still pitch; while
/// running, the positions below `cursor` may still run.
#[derive(Clone, Copy, Debug, PartialEq, Eq, Structural)]
pub struct LoaderRun {
    pub phase: RunPhase,
    pub cursor: usize,
    /// The position that pitched last, while that is still to be judged.
    pub pitched: Option<usize>,
}

/// The first position from `from` on whose step has not pitched; the length
/// of the chain where there is none.
pub open spec fn first_unpitched(items: Seq<LoaderItem>, from: int) -> int
    decreases items.len() - from,
{
    if from >= items.len() || from < 0 {
        items.len() as int
    } else if !items[from].pitch_executed {
        from
    } else {
        first_unpitched(items, from + 1)
    }
}

/// The last position below `below` whose step has not run; -1 where there
/// is none.
pub open spec fn last_unrun(items: Seq<LoaderItem>, below: int) -> int
    decreases below,
{
    if below <= 0 || below > items.len() {
        -1
    } else if !items[below - 1].normal_executed {
        below - 1
    } else {
        last_unrun(items, below - 1)
    }
}

/// `first_unpitched` gives a position from `from` on that has not pitched,
/// and every position between has.
pub proof fn lemma_first_unpitched(items: Seq<LoaderItem>, from: int)
    requires
        0 <= from <= items.len(),
    ensures
        from <= first_unpitched(items, from) <= items.len(),
        first_unpitched(items, from) < items.len() ==> !items[first_unpitched(
            items,
            from,
        )].pitch_executed,
        forall|j: int| from <= j < first_unpitched(items, from) ==> items[j].pitch_executed,
    decreases items.len() - from,
{
    if from < items.len() && items[from].pitch_executed {
        lemma_first_unpitched(items, from + 1);
    }
}

/// `last_unrun` gives a position below `below` that has not run, and every
/// position between has.
pub proof fn lemma_last_unrun(items: Seq<LoaderItem>, below: int)
    requires
        0 <= below <= items.len(),
    ensures
        -1 <= last_unrun(items, below) < below,
        last_unrun(items, below) >= 0 ==> !items[last_unrun(items, below)].normal_executed,
        forall|j: int| last_unrun(items, below) < j < below ==> items[j].normal_executed,
    decreases below,
{
    if below > 0 && items[below - 1].normal_executed {
        lemma_last_unrun(items, below - 1);
    }
}

/// The run as it stands once the last pitch has been judged: a pitch that
/// left content in the context ends the pitch phase, and the steps before
/// the one that pitched are run.
pub open spec fn judged(run: LoaderRun, has_content: bool) -> LoaderRun {
    match run.pitched {
        Some(at) => if run.phase == RunPhase::Pitching && has_content {
            LoaderRun { phase: RunPhase::Running, cursor: at, pitched: None }
        } else {
            LoaderRun { phase: run.phase, cursor: run.cursor, pitched: None }
        },
        None => run,
    }
}

/// The step that a judged run takes next.
pub open spec fn step_of(run: LoaderRun, items: Seq<LoaderItem>) -> LoaderStep {
    match run.phase {
        RunPhase::Pitching => if first_unpitched(items, run.cursor as int) < items.len() {
            LoaderStep::Pitch(first_unpitched(items, run.cursor as int) as usize)
        } else {
            LoaderStep::ProcessResource
        },
        RunPhase::Running => if last_unrun(items, run.cursor as int) >= 0 {
            LoaderStep::Normal(last_unrun(items, run.cursor as int) as usize)
        } else {
            LoaderStep::Finish
        },
        RunPhase::Done => LoaderStep::Finish,
    }
}

/// The run after a judged run has taken `step`.
pub open spec fn run_after(run: LoaderRun, step: LoaderStep, len: int) -> LoaderRun {
    match step {
        LoaderStep::Pitch(at) => LoaderRun {
            phase: RunPhase::Pitching,
            cursor: (at + 1) as usize,
            pitched: Some(at),
        },
        LoaderStep::ProcessResource => LoaderRun {
            phase: RunPhase::Running,
            cursor: len as usize,
            pitched: None,
        },
        LoaderStep::Normal(at) => LoaderRun { phase: RunPhase::Running, cursor: at, pitched: None },
        LoaderStep::Finish => LoaderRun { phase: RunPhase::Done, cursor: run.cursor, pitched: None },
    }
}

/// The steps after `step` was taken: the step that pitches or runs is
/// marked as having done so.
pub open spec fn items_after(items: Seq<LoaderItem>, step: LoaderStep) -> Seq<LoaderItem> {
    match step {
        LoaderStep::Pitch(at) => items.update(
            at as int,
            LoaderItem {
                loader: items[at as int].loader,
                pitch_executed: true,
                normal_executed: items[at as int].normal_executed,
            },
        ),
        LoaderStep::Normal(at) => items.update(
            at as int,
            LoaderItem {
                loader: items[at as int].loader,
                pitch_executed: items[at as int].pitch_executed,
                normal_executed: true,
            },
        ),
        _ => items,
    }
}

impl LoaderRun {
    /// The cursor lies inside the chain, and so does the position that
    /// pitched last.
    pub open spec fn fits(self, len: int) -> bool {
        &&& self.cursor <= len
        &&& self.pitched matches Some(at) ==> at < len
    }

    /// A run that has not started.
    pub fn new() -> (run: Self)
        ensures
            run == (LoaderRun { phase: RunPhase::Pitching, cursor: 0, pitched: None }),
    {
        LoaderRun { phase: RunPhase::Pitching, cursor: 0, pitched: None }
    }

    /// Decides what is to be done next, and records it. First the last
    /// pitch is judged by the content of the context. Then, while pitching,
    /// the first step that has not pitched is to pitch; where there is
    /// none, the resource is to be read, and running begins behind the last
    /// step. While running, the last step before the cursor that has not
    /// run is to run; where there is none, the run is done. The step that
    /// is to pitch or run is marked, and made the current step of the
    /// context.
    pub fn next(&mut self, cx: &mut LoaderContext) -> (step: LoaderStep)
        requires
            old(self).fits(old(cx).loader_items@.len() as int),
        ensures
            step == step_of(judged(*old(self), old(cx).content is Some), old(cx).loader_items@),
            *final(self) == run_after(
                judged(*old(self), old(cx).content is Some),
                step,
                old(cx).loader_items@.len() as int,
            ),
            final(self).fits(old(cx).loader_items@.len() as int),
            final(cx).loader_items@ == items_after(old(cx).loader_items@, step),
            final(cx).loader_index == match step {
                LoaderStep::Pitch(at) => at,
                LoaderStep::Normal(at) => at,
                _ => old(cx).loader_index,
            },
            match step {
                LoaderStep::Pitch(at) => at < old(cx).loader_items@.len(),
                LoaderStep::Normal(at) => at < old(cx).loader_items@.len(),
                _ => true,
            },
            final(cx).content == old(cx).content,
            final(cx).source_map == old(cx).source_map,
            final(cx).additional_data == old(cx).additional_data,
            final(cx).resource == old(cx).resource,
            final(cx).resource_path == old(cx).resource_path,
            final(cx).resource_query == old(cx).resource_query,
            final(cx).resource_fragment == old(cx).resource_fragment,
            final(cx).cacheable == old(cx).cacheable,
            final(cx).file_dependencies == old(cx).file_dependencies,
            final(cx).context_dependencies == old(cx).context_dependencies,
            final(cx).missing_dependencies == old(cx).missing_dependencies,
            final(cx).build_dependencies == old(cx).build_dependencies,
            final(cx).asset_filenames == old(cx).asset_filenames,
            final(cx).diagnostics == old(cx).diagnostics,
    {
        let len = cx.loader_items.len();
        if let Some(at) = self.pitched {
            if matches!(self.phase, RunPhase::Pitching) && cx.content.is_some() {
                self.phase = RunPhase::Running;
                self.cursor = at;
            }
            self.pitched = None;
        }
        let ghost start = *self;
        assert(start == judged(*old(self), old(cx).content is Some));
        match self.phase {
            RunPhase::Pitching => {
                let mut i: usize = self.cursor;
                while i < len && cx.loader_items[i].pitch_executed
                    invariant
                        self.cursor <= i <= len,
                        len == cx.loader_items@.len(),
                        *cx == *old(cx),
                        first_unpitched(cx.loader_items@, i as int) == first_unpitched(
                            cx.loader_items@,
                            self.cursor as int,
                        ),
                    decreases len - i,
                {
                    i = i + 1;
                }
                if i < len {
                    cx.loader_items[i].pitch_executed = true;
                    cx.loader_index = i;
                    self.cursor = i + 1;
                    self.pitched = Some(i);
                    assert(cx.loader_items@ == items_after(
                        old(cx).loader_items@,
                        LoaderStep::Pitch(i),
                    ));
                    LoaderStep::Pitch(i)
                } else {
                    self.phase = RunPhase::Running;
                    self.cursor = len;
                    LoaderStep::ProcessResource
                }
            },
            RunPhase::Running => {
                let mut i: usize = self.cursor;
                while i > 0 && cx.loader_items[i - 1].normal_executed
                    invariant
                        0 <= i <= self.cursor <= len,
                        len == cx.loader_items@.len(),
                        *cx == *old(cx),
                        last_unrun(cx.loader_items@, i as int) == last_unrun(
                            cx.loader_items@,
                            self.cursor as int,
                        ),
                    decreases i,
                {
                    i = i - 1;
                }
                if i > 0 {
                    let at = i - 1;
                    cx.loader_items[at].normal_executed = true;
                    cx.loader_index = at;
                    self.cursor = at;
                    assert(cx.loader_items@ == items_after(
                        old(cx).loader_items@,
                        LoaderStep::Normal(at),
                    ));
                    LoaderStep::Normal(at)
                } else {
                    self.phase = RunPhase::Done;
                    LoaderStep::Finish
                }
            },
            RunPhase::Done => LoaderStep::Finish,
        }
    }
}

/// A step is never pitched twice and never run twice: the step that is
/// taken was not marked, and is marked afterwards.
pub proof fn lemma_step_taken_once(run: LoaderRun, items: Seq<LoaderItem>)
    requires
        run.fits(items.len() as int),
        run.pitched is None,
        items.len() <= usize::MAX,
    ensures
        match step_of(run, items) {
            LoaderStep::Pitch(at) => at < items.len() && !items[at as int].pitch_executed
                && items_after(items, step_of(run, items))[at as int].pitch_executed,
            LoaderStep::Normal(at) => at < items.len() && !items[at as int].normal_executed
                && items_after(items, step_of(run, items))[at as int].normal_executed,
            _ => true,
        },
{
    lemma_first_unpitched(items, run.cursor as int);
    lemma_last_unrun(items, run.cursor as int);
}

/// Pitching goes forward and running goes backward: a step that pitches
/// lies at or behind the cursor, a step that runs lies before it.
pub proof fn lemma_order_of_steps(run: LoaderRun, items: Seq<LoaderItem>)
    requires
        run.fits(items.len() as int),
        run.pitched is None,
        items.len() <= usize::MAX,
    ensures
        match step_of(run, items) {
            LoaderStep::Pitch(at) => run.phase == RunPhase::Pitching && run.cursor <= at
                && run_after(run, step_of(run, items), items.len() as int).cursor == at + 1,
            LoaderStep::Normal(at) => run.phase == RunPhase::Running && at < run.cursor
                && run_after(run, step_of(run, items), items.len() as int).cursor == at,
            LoaderStep::ProcessResource => run.phase == RunPhase::Pitching,
            LoaderStep::Finish => true,
        },
{
    lemma_first_unpitched(items, run.cursor as int);
    lemma_last_unrun(items, run.cursor as int);
}

/// A pitch that produced content ends the pitch phase: no later step is
/// pitched, and the steps before the one that pitched are run, last first.
pub proof fn lemma_pitch_short_circuits(run: LoaderRun, items: Seq<LoaderItem>, at: usize)
    requires
        run.phase == RunPhase::Pitching,
        run.pitched == Some(at),
        at < items.len(),
    ensures
        judged(run, true).phase == RunPhase::Running,
        judged(run, true).cursor == at,
        match step_of(judged(run, true), items) {
            LoaderStep::Normal(next) => next < at,
            LoaderStep::Finish => true,
            _ => false,
        },
{
    lemma_last_unrun(items, at as int);
}

/// The steps of a run from a given state on: each step is the one that
/// `next` decides, and the context has content once the step at `stop` has
/// pitched or the resource has been read. `fuel` bounds the number of steps.
pub open spec fn steps_from(
    run: LoaderRun,
    items: Seq<LoaderItem>,
    has_content: bool,
    stop: int,
    fuel: nat,
) -> Seq<LoaderStep>
    decreases fuel,
{
    let step = step_of(judged(run, has_content), items);
    if fuel == 0 || step == LoaderStep::Finish {
        seq![step]
    } else {
        seq![step] + steps_from(
            run_after(judged(run, has_content), step, items.len() as int),
            items_after(items, step),
            has_content || step == LoaderStep::ProcessResource || step == LoaderStep::Pitch(
                stop as usize,
            ),
            stop,
            (fuel - 1) as nat,
        )
    }
}

/// The pitches of the positions from `from` up to, not including, `to`.
pub open spec fn pitches(from: int, to: int) -> Seq<LoaderStep>
    decreases to - from,
{
    if from >= to {
        Seq::empty()
    } else {
        seq![LoaderStep::Pitch(from as usize)] + pitches(from + 1, to)
    }
}

/// The runs of the positions below `below`, last first.
pub open spec fn runs_down(below: int) -> Seq<LoaderStep>
    decreases below,
{
    if below <= 0 {
        Seq::empty()
    } else {
        seq![LoaderStep::Normal((below - 1) as usize)] + runs_down(below - 1)
    }
}

/// The steps of a whole run of a chain of `len` steps in which the pitch at
/// `stop` is the first to leave content; `stop == len` says that none does.
/// The steps up to `stop` pitch, first to last. Where none left content the
/// resource is read and all steps run, last to first; else the steps before
/// `stop` run, last to first.
pub open spec fn whole_run(len: int, stop: int) -> Seq<LoaderStep> {
    if stop >= len {
        pitches(0, len) + seq![LoaderStep::ProcessResource] + runs_down(len) + seq![
            LoaderStep::Finish,
        ]
    } else {
        pitches(0, stop + 1) + runs_down(stop) + seq![LoaderStep::Finish]
    }
}

/// No step below `below` has run.
pub open spec fn none_run_below(items: Seq<LoaderItem>, below: int) -> bool {
    forall|j: int| 0 <= j < below && j < items.len() ==> !(#[trigger] items[j]).normal_executed
}

/// No step from `from` on has pitched.
pub open spec fn none_pitched_from(items: Seq<LoaderItem>, from: int) -> bool {
    forall|j: int| from <= j < items.len() ==> !(#[trigger] items[j]).pitch_executed
}

proof fn lemma_running(items: Seq<LoaderItem>, cursor: int, stop: int, fuel: nat)
    requires
        0 <= cursor <= items.len() <= usize::MAX,
        none_run_below(items, cursor),
        fuel > cursor,
    ensures
        steps_from(
            LoaderRun { phase: RunPhase::Running, cursor: cursor as usize, pitched: None },
            items,
            true,
            stop,
            fuel,
        ) == runs_down(cursor) + seq![LoaderStep::Finish],
    decreases cursor,
{
    let run = LoaderRun { phase: RunPhase::Running, cursor: cursor as usize, pitched: None };
    assert(judged(run, true) == run);
    if cursor == 0 {
        assert(step_of(run, items) == LoaderStep::Finish);
        assert(runs_down(0) + seq![LoaderStep::Finish] == seq![LoaderStep::Finish]);
    } else {
        assert(!items[cursor - 1].normal_executed);
        let step = LoaderStep::Normal((cursor - 1) as usize);
        assert(step_of(run, items) == step);
        let after = items_after(items, step);
        assert(none_run_below(after, cursor - 1)) by {
            assert forall|j: int| 0 <= j < cursor - 1 && j < after.len() implies !(
            #[trigger] after[j]).normal_executed by {
                assert(after[j] == items[j]);
            }
        }
        lemma_running(after, cursor - 1, stop, (fuel - 1) as nat);
        assert(run_after(run, step, items.len() as int) == (LoaderRun {
            phase: RunPhase::Running,
            cursor: (cursor - 1) as usize,
            pitched: None,
        }));
        assert(runs_down(cursor) + seq![LoaderStep::Finish] == seq![step] + (runs_down(cursor - 1)
            + seq![LoaderStep::Finish]));
    }
}

proof fn lemma_pitching(
    items: Seq<LoaderItem>,
    cursor: int,
    pitched: Option<usize>,
    stop: int,
    fuel: nat,
)
    requires
        0 <= cursor <= items.len() <= usize::MAX,
        cursor <= stop <= items.len(),
        none_pitched_from(items, cursor),
        none_run_below(items, items.len() as int),
        fuel > 2 * items.len() - cursor + 1,
    ensures
        steps_from(
            LoaderRun { phase: RunPhase::Pitching, cursor: cursor as usize, pitched },
            items,
            false,
            stop,
            fuel,
        ) == if stop >= items.len() {
            pitches(cursor, items.len() as int) + seq![LoaderStep::ProcessResource] + runs_down(
                items.len() as int,
            ) + seq![LoaderStep::Finish]
        } else {
            pitches(cursor, stop + 1) + runs_down(stop) + seq![LoaderStep::Finish]
        },
    decreases items.len() - cursor,
{
    let len = items.len() as int;
    let given = LoaderRun { phase: RunPhase::Pitching, cursor: cursor as usize, pitched };
    let run = LoaderRun { phase: RunPhase::Pitching, cursor: cursor as usize, pitched: None };
    assert(judged(given, false) == run);
    if cursor == len {
        let step = LoaderStep::ProcessResource;
        assert(step_of(run, items) == step);
        assert(run_after(run, step, len) == (LoaderRun {
            phase: RunPhase::Running,
            cursor: len as usize,
            pitched: None,
        }));
        lemma_running(items, len, stop, (fuel - 1) as nat);
        assert(pitches(cursor, len) == Seq::<LoaderStep>::empty());
        assert(pitches(cursor, len) + seq![step] + runs_down(len) + seq![LoaderStep::Finish]
            == seq![step] + (runs_down(len) + seq![LoaderStep::Finish]));
    } else {
        assert(!items[cursor].pitch_executed);
        let step = LoaderStep::Pitch(cursor as usize);
        assert(step_of(run, items) == step);
        let after = items_after(items, step);
        let next = LoaderRun {
            phase: RunPhase::Pitching,
            cursor: (cursor + 1) as usize,
            pitched: Some(cursor as usize),
        };
        assert(run_after(run, step, len) == next);
        assert(none_run_below(after, len)) by {
            assert forall|j: int| 0 <= j < len && j < after.len() implies !(
            #[trigger] after[j]).normal_executed by {
                if j != cursor {
                    assert(after[j] == items[j]);
                }
            }
        }
        if cursor == stop {
            assert(judged(next, true) == (LoaderRun {
                phase: RunPhase::Running,
                cursor: cursor as usize,
                pitched: None,
            }));
            lemma_running(after, cursor, stop, (fuel - 1) as nat);
            lemma_after_stop(next, after, cursor, stop, (fuel - 1) as nat);
            assert(pitches(cursor + 1, stop + 1) == Seq::<LoaderStep>::empty());
            assert(pitches(cursor, stop + 1) + runs_down(stop) + seq![LoaderStep::Finish]
                == seq![step] + (runs_down(stop) + seq![LoaderStep::Finish]));
        } else {
            assert(none_pitched_from(after, cursor + 1)) by {
                assert forall|j: int| cursor + 1 <= j < after.len() implies !(
                #[trigger] after[j]).pitch_executed by {
                    assert(after[j] == items[j]);
                }
            }
            lemma_pitching(after, cursor + 1, Some(cursor as usize), stop, (fuel - 1) as nat);
            if stop >= len {
                assert(pitches(cursor, len) + seq![LoaderStep::ProcessResource] + runs_down(len)
                    + seq![LoaderStep::Finish] == seq![step] + (pitches(cursor + 1, len) + seq![
                    LoaderStep::ProcessResource,
                ] + runs_down(len) + seq![LoaderStep::Finish]));
            } else {
                assert(pitches(cursor, stop + 1) + runs_down(stop) + seq![LoaderStep::Finish]
                    == seq![step] + (pitches(cursor + 1, stop + 1) + runs_down(stop) + seq![
                    LoaderStep::Finish,
                ]));
            }
        }
    }
}

proof fn lemma_after_stop(
    next: LoaderRun,
    items: Seq<LoaderItem>,
    cursor: int,
    stop: int,
    fuel: nat,
)
    requires
        next == (LoaderRun {
            phase: RunPhase::Pitching,
            cursor: (cursor + 1) as usize,
            pitched: Some(cursor as usize),
        }),
        0 <= cursor < items.len() <= usize::MAX,
    ensures
        steps_from(next, items, true, stop, fuel) == steps_from(
            LoaderRun { phase: RunPhase::Running, cursor: cursor as usize, pitched: None },
            items,
            true,
            stop,
            fuel,
        ),
{
    let running = LoaderRun { phase: RunPhase::Running, cursor: cursor as usize, pitched: None };
    assert(judged(next, true) == running);
    assert(judged(running, true) == running);
}

/// The run of a chain of which nothing has pitched or run takes exactly the
/// steps of `whole_run`: it pitches forward up to the first pitch that
/// leaves content, and runs backward from there; without such a pitch it
/// pitches every step, reads the resource, and runs every step backward.
pub proof fn lemma_whole_run(items: Seq<LoaderItem>, stop: int)
    requires
        items.len() <= usize::MAX,
        0 <= stop <= items.len(),
        none_pitched_from(items, 0),
        none_run_below(items, items.len() as int),
    ensures
        steps_from(
            LoaderRun { phase: RunPhase::Pitching, cursor: 0, pitched: None },
            items,
            false,
            stop,
            (2 * items.len() + 2) as nat,
        ) == whole_run(items.len() as int, stop),
{
    lemma_pitching(items, 0, None, stop, (2 * items.len() + 2) as nat);
}

/// The step of a chain of one step, marked as run in the normal phase.
pub open spec fn marked_run(items: Seq<LoaderItem>) -> Seq<LoaderItem> {
    items.update(
        0,
        LoaderItem {
            loader: items[0].loader,
            pitch_executed: items[0].pitch_executed,
            normal_executed: true,
        },
    )
}

/// A chain of one step, as a collapsed chain is, reaches its step exactly
/// once in a whole run, provided that the answer to its pitch carries
/// content or says that the pitch phase was left: the run pitches the step;
/// with content it is done at once; with the step marked as run it reads
/// the resource and is done. The step is never run in the normal phase.
pub proof fn lemma_single_step_is_reached_once(items: Seq<LoaderItem>)
    requires
        items.len() == 1,
        !items[0].pitch_executed,
        !items[0].normal_executed,
    ensures
        ({
            let start = LoaderRun { phase: RunPhase::Pitching, cursor: 0, pitched: None };
            let pitched = run_after(start, LoaderStep::Pitch(0), 1);
            let after = items_after(items, LoaderStep::Pitch(0));
            let read = run_after(judged(pitched, false), LoaderStep::ProcessResource, 1);
            &&& step_of(start, items) == LoaderStep::Pitch(0)
            &&& step_of(judged(pitched, true), after) == LoaderStep::Finish
            &&& step_of(judged(pitched, false), marked_run(after)) == LoaderStep::ProcessResource
            &&& step_of(judged(read, true), marked_run(after)) == LoaderStep::Finish
        }),
{
    let start = LoaderRun { phase: RunPhase::Pitching, cursor: 0, pitched: None };
    let pitched = run_after(start, LoaderStep::Pitch(0), 1);
    let after = items_after(items, LoaderStep::Pitch(0));
    let marked = marked_run(after);
    assert(first_unpitched(items, 0) == 0);
    assert(judged(pitched, true) == (LoaderRun {
        phase: RunPhase::Running,
        cursor: 0,
        pitched: None,
    }));
    assert(last_unrun(after, 0) == -1);
    assert(judged(pitched, false) == (LoaderRun {
        phase: RunPhase::Pitching,
        cursor: 1,
        pitched: None,
    }));
    assert(first_unpitched(marked, 1) == 1);
    let read = run_after(judged(pitched, false), LoaderStep::ProcessResource, 1);
    assert(judged(read, true) == (LoaderRun {
        phase: RunPhase::Running,
        cursor: 1,
        pitched: None,
    }));
    assert(marked[0].normal_executed);
    assert(last_unrun(marked, 0) == -1);
    assert(last_unrun(marked, 1) == -1);
}

impl LoaderContext {
    /// What the chain produced, once its run is done. A chain that left no
    /// content has failed.
    pub fn into_result(self) -> (r: Result<(LoaderResult, Vec<Diagnostic>), InternalError>)
        ensures
            match r {
                Ok(done) => {
                    &&& self.content == Some(done.0.content)
                    &&& done.0.source_map == self.source_map
                    &&& done.0.additional_data == self.additional_data
                    &&& done.0.cacheable == self.cacheable
                    &&& done.0.file_dependencies == self.file_dependencies
                    &&& done.0.context_dependencies == self.context_dependencies
                    &&& done.0.missing_dependencies == self.missing_dependencies
                    &&& done.0.build_dependencies == self.build_dependencies
                    &&& done.0.asset_filenames == self.asset_filenames
                    &&& done.1 == self.diagnostics
                },
                Err(e) => self.content is None && e.message@
                    == "Content should be available"@ && e.severity == Severity::Error,
            },
    {
        match self.content {
            Some(content) => Ok(
                (
                    LoaderResult {
                        content,
                        source_map: self.source_map,
                        additional_data: self.additional_data,
                        cacheable: self.cacheable,
                        file_dependencies: self.file_dependencies,
                        context_dependencies: self.context_dependencies,
                        missing_dependencies: self.missing_dependencies,
                        build_dependencies: self.build_dependencies,
                        asset_filenames: self.asset_filenames,
                    },
                    self.diagnostics,
                ),
            ),
            None => Err(
                InternalError::new("Content should be available".to_owned(), Severity::Error),
            ),
        }
    }
}

} // verus!
