//! Copying a directory tree.
//!
//! The source must be a directory: a source that is missing, or that is a
//! file or anything else, fails the copy before the destination is created.
//! Directories are copied recursively and regular files byte for byte. Any
//! other kind of entry is left out with a warning: a stray symlink or device
//! node among the support files must not fail an installation.

use vstd::prelude::*;
use crate::model::{BootError, BootErrorView};
use crate::paths::{join_path, joined};
use crate::plan::{
    asked, feed, is_kind, lemma_feed_ended, lemma_feed_first, Action, ActionView, DirEntry,
    DirEntryView, EntryKind, Event, EventView, Step, StepView,
};

verus! {

/// Something that is still to be copied.
#[derive(Debug, Clone, PartialEq, Eq)]
pub enum Task {
    /// Copy the directory `source` to `dest`.
    Tree { source: String, dest: String },
    /// Copy the file `source` to `dest`.
    File { source: String, dest: String },
    /// Leave `path` out.
    Other { path: String },
}

pub enum TaskView {
    Tree { source: Seq<char>, dest: Seq<char> },
    File { source: Seq<char>, dest: Seq<char> },
    Other { path: Seq<char> },
}

impl DeepView for Task {
    type V = TaskView;

    open spec fn deep_view(&self) -> TaskView {
        match self {
            Task::Tree { source, dest } => TaskView::Tree { source: source@, dest: dest@ },
            Task::File { source, dest } => TaskView::File { source: source@, dest: dest@ },
            Task::Other { path } => TaskView::Other { path: path@ },
        }
    }
}

/// The action whose outcome a copy awaits.
#[derive(Debug, Clone, PartialEq, Eq)]
pub enum Stage {
    /// Probing for the directory `source`, which goes to `dest`.
    Probing { source: String, dest: String },
    /// Creating `dest`.
    Creating { source: String, dest: String },
    /// Listing `source`.
    Listing { source: String, dest: String },
    /// Copying a file.
    Copying,
    /// Leaving an entry out.
    Skipping,
}

pub enum StageView {
    Probing { source: Seq<char>, dest: Seq<char> },
    Creating { source: Seq<char>, dest: Seq<char> },
    Listing { source: Seq<char>, dest: Seq<char> },
    Copying,
    Skipping,
}

impl DeepView for Stage {
    type V = StageView;

    open spec fn deep_view(&self) -> StageView {
        match self {
            Stage::Probing { source, dest } => StageView::Probing { source: source@, dest: dest@ },
            Stage::Creating { source, dest } => StageView::Creating {
                source: source@,
                dest: dest@,
            },
            Stage::Listing { source, dest } => StageView::Listing { source: source@, dest: dest@ },
            Stage::Copying => StageView::Copying,
            Stage::Skipping => StageView::Skipping,
        }
    }
}

/// Where a copy stands: the pending action, and what is left to do after it.
/// The tasks are taken from the end of `todo`.
#[derive(Debug, Clone, PartialEq, Eq)]
pub struct CopyState {
    pub stage: Stage,
    pub todo: Vec<Task>,
}

pub struct CopyStateView {
    pub stage: StageView,
    pub todo: Seq<TaskView>,
}

impl DeepView for CopyState {
    type V = CopyStateView;

    open spec fn deep_view(&self) -> CopyStateView {
        CopyStateView { stage: self.stage.deep_view(), todo: self.todo.deep_view() }
    }
}

/// What is to be done with an entry of `source` while `source` is copied to
/// `dest`.
pub open spec fn task_of(source: Seq<char>, dest: Seq<char>, entry: DirEntryView) -> TaskView {
    match entry.kind {
        EntryKind::Directory => TaskView::Tree {
            source: joined(source, entry.name),
            dest: joined(dest, entry.name),
        },
        EntryKind::File => TaskView::File {
            source: joined(source, entry.name),
            dest: joined(dest, entry.name),
        },
        EntryKind::Other => TaskView::Other { path: joined(source, entry.name) },
    }
}

/// The tasks for the entries of a directory, last entry first, so that the
/// first entry is the next to be taken.
pub open spec fn tasks_of(source: Seq<char>, dest: Seq<char>, entries: Seq<DirEntryView>) -> Seq<
    TaskView,
> {
    Seq::new(entries.len(), |k: int| task_of(source, dest, entries[entries.len() - 1 - k]))
}

/// The step that takes up the next task, or ends the copy where none is left.
pub open spec fn next_task(todo: Seq<TaskView>) -> StepView<CopyStateView, ()> {
    if todo.len() == 0 {
        StepView::Done(())
    } else {
        let rest = todo.drop_last();
        match todo.last() {
            TaskView::Tree { source, dest } => StepView::Next(
                CopyStateView { stage: StageView::Probing { source, dest }, todo: rest },
                ActionView::Probe { path: source, strict: false },
            ),
            TaskView::File { source, dest } => StepView::Next(
                CopyStateView { stage: StageView::Copying, todo: rest },
                ActionView::CopyFile { source, dest },
            ),
            TaskView::Other { path } => StepView::Next(
                CopyStateView { stage: StageView::Skipping, todo: rest },
                ActionView::Skip { path },
            ),
        }
    }
}

/// The first step of copying `source` to `dest`: probe for `source`.
pub open spec fn copy_start(source: Seq<char>, dest: Seq<char>) -> StepView<CopyStateView, ()> {
    next_task(seq![TaskView::Tree { source, dest }])
}

/// The step that follows `event` in `state`.
///
/// The source is probed first. Unless a directory is there the copy fails
/// with `SourceMissing` before anything is created: a source that is missing
/// and one that is a file, or anything else but a directory, fail alike. A
/// directory that is there is created at the destination and listed; its
/// entries are then taken in the order of the listing, each directory among
/// them in full before the entry after it.
pub open spec fn copy_advance(state: CopyStateView, event: EventView) -> StepView<
    CopyStateView,
    (),
> {
    match (state.stage, event) {
        (StageView::Probing { source, dest }, EventView::Probed(found)) => if found == Some(
            EntryKind::Directory,
        ) {
            StepView::Next(
                CopyStateView { stage: StageView::Creating { source, dest }, todo: state.todo },
                ActionView::CreateDir { path: dest },
            )
        } else {
            StepView::Failed(BootErrorView::SourceMissing { path: source })
        },
        (StageView::Creating { source, dest }, EventView::Created) => StepView::Next(
            CopyStateView { stage: StageView::Listing { source, dest }, todo: state.todo },
            ActionView::ListDir { path: source },
        ),
        (StageView::Listing { source, dest }, EventView::Listed(entries)) => next_task(
            state.todo + tasks_of(source, dest, entries),
        ),
        (StageView::Copying, EventView::FileCopied) => next_task(state.todo),
        (StageView::Skipping, EventView::Skipped) => next_task(state.todo),
        _ => StepView::Failed(BootErrorView::OutOfTurn),
    }
}

fn make_task(source: &str, dest: &str, entry: &DirEntry) -> (r: Task)
    ensures
        r.deep_view() == task_of(source@, dest@, entry.deep_view()),
{
    match entry.kind {
        EntryKind::Directory => Task::Tree {
            source: join_path(source, entry.name.as_str()),
            dest: join_path(dest, entry.name.as_str()),
        },
        EntryKind::File => Task::File {
            source: join_path(source, entry.name.as_str()),
            dest: join_path(dest, entry.name.as_str()),
        },
        EntryKind::Other => Task::Other { path: join_path(source, entry.name.as_str()) },
    }
}

fn take_next(todo: Vec<Task>) -> (r: Step<CopyState, ()>)
    ensures
        r.deep_view() == next_task(todo.deep_view()),
{
    let mut todo = todo;
    let ghost before = todo.deep_view();
    let task = todo.pop();
    assert(task is Some ==> todo.deep_view() =~= before.drop_last() && task.unwrap().deep_view()
        == before.last());
    match task {
        None => Step::Done(()),
        Some(Task::Tree { source, dest }) => {
            let path = source.clone();
            Step::Next(
                CopyState { stage: Stage::Probing { source, dest }, todo },
                Action::Probe { path, strict: false },
            )
        },
        Some(Task::File { source, dest }) => Step::Next(
            CopyState { stage: Stage::Copying, todo },
            Action::CopyFile { source, dest },
        ),
        Some(Task::Other { path }) => Step::Next(
            CopyState { stage: Stage::Skipping, todo },
            Action::Skip { path },
        ),
    }
}

/// Starts copying the directory `source` to `dest`.
pub fn copy_dir_all(source: &str, dest: &str) -> (r: Step<CopyState, ()>)
    ensures
        r.deep_view() == copy_start(source@, dest@),
{
    let mut todo: Vec<Task> = Vec::new();
    todo.push(Task::Tree { source: String::from_str(source), dest: String::from_str(dest) });
    assert(todo.deep_view() =~= seq![TaskView::Tree { source: source@, dest: dest@ }]);
    take_next(todo)
}

/// Takes the copy one step further, given the outcome of the action that was
/// pending in `state`.
pub fn copy_dir_all_next(state: CopyState, event: Event) -> (r: Step<CopyState, ()>)
    ensures
        r.deep_view() == copy_advance(state.deep_view(), event.deep_view()),
{
    let CopyState { stage, todo } = state;
    match (stage, event) {
        (Stage::Probing { source, dest }, Event::Probed(found)) => {
            if is_kind(&found, EntryKind::Directory) {
                let path = dest.clone();
                Step::Next(
                    CopyState { stage: Stage::Creating { source, dest }, todo },
                    Action::CreateDir { path },
                )
            } else {
                Step::Failed(BootError::SourceMissing { path: source })
            }
        },
        (Stage::Creating { source, dest }, Event::Created) => {
            let path = source.clone();
            Step::Next(
                CopyState { stage: Stage::Listing { source, dest }, todo },
                Action::ListDir { path },
            )
        },
        (Stage::Listing { source, dest }, Event::Listed(entries)) => {
            let mut todo = todo;
            let ghost before = todo.deep_view();
            let ghost listed = entries.deep_view();
            let n: usize = entries.len();
            let mut i: usize = n;
            while i > 0
                invariant
                    n == entries.len(),
                    listed == entries.deep_view(),
                    0 <= i <= n,
                    todo.deep_view() == before + tasks_of(source@, dest@, listed).subrange(
                        0,
                        n - i,
                    ),
                decreases i,
            {
                i = i - 1;
                let ghost prior = todo.deep_view();
                let task = make_task(source.as_str(), dest.as_str(), &entries[i]);
                todo.push(task);
                assert(todo.deep_view() =~= prior.push(task.deep_view()));
                assert(listed[i as int] == entries@[i as int].deep_view());
                assert(todo.deep_view() =~= before + tasks_of(source@, dest@, listed).subrange(
                    0,
                    n - i,
                ));
            }
            assert(tasks_of(source@, dest@, listed).subrange(0, n as int) =~= tasks_of(
                source@,
                dest@,
                listed,
            ));
            take_next(todo)
        },
        (Stage::Copying, Event::FileCopied) => take_next(todo),
        (Stage::Skipping, Event::Skipped) => take_next(todo),
        _ => Step::Failed(BootError::OutOfTurn),
    }
}

/// The step function of a copy.
pub open spec fn copy_machine() -> spec_fn(CopyStateView, EventView) -> StepView<CopyStateView, ()> {
    |state: CopyStateView, event: EventView| copy_advance(state, event)
}

/// The step at which the copy of `source` to `dest` stands after the driver
/// has reported `events`.
pub open spec fn copy_run(source: Seq<char>, dest: Seq<char>, events: Seq<EventView>) -> StepView<
    CopyStateView,
    (),
> {
    feed(copy_machine(), copy_start(source, dest), events)
}

/// The actions that the copy of `source` to `dest` asked for while the driver
/// reported `events`.
pub open spec fn copy_asked(source: Seq<char>, dest: Seq<char>, events: Seq<EventView>) -> Seq<
    ActionView,
> {
    asked(copy_machine(), copy_start(source, dest), events)
}

/// Unless the source is a directory, the copy fails with `SourceMissing`, and
/// all that it ever asked for is the probe for the source: nothing is created
/// and nothing is copied, not even the destination directory. This holds of
/// a source that does not exist and of one that is a file or anything else.
pub proof fn lemma_missing_source_changes_nothing(
    source: Seq<char>,
    dest: Seq<char>,
    events: Seq<EventView>,
)
    requires
        events.len() > 0,
        events[0] matches EventView::Probed(found) && found != Some(EntryKind::Directory),
    ensures
        copy_run(source, dest, events) == StepView::<CopyStateView, ()>::Failed(
            BootErrorView::SourceMissing { path: source },
        ),
        copy_asked(source, dest, events) == seq![ActionView::Probe { path: source, strict: false }],
        !(ActionView::Probe { path: source, strict: false }).is_destructive(),
{
    let first = seq![TaskView::Tree { source, dest }];
    assert(first.last() == TaskView::Tree { source, dest });
    assert(first.drop_last() =~= Seq::<TaskView>::empty());
    let failed = StepView::<CopyStateView, ()>::Failed(
        BootErrorView::SourceMissing { path: source },
    );
    let probe = ActionView::Probe { path: source, strict: false };
    let state = CopyStateView { stage: StageView::Probing { source, dest }, todo: seq![] };
    assert(copy_start(source, dest) == StepView::<CopyStateView, ()>::Next(state, probe));
    assert(events =~= seq![events[0]] + events.skip(1));
    lemma_feed_first(copy_machine(), state, probe, events[0], events.skip(1));
    lemma_feed_ended(copy_machine(), failed, events.skip(1));
    assert(seq![probe] + Seq::<ActionView>::empty() =~= seq![probe]);
}

/// The destination is created only in answer to a probe that found a
/// directory at the source.
pub proof fn lemma_destination_needs_a_directory(state: CopyStateView, event: EventView)
    requires
        copy_advance(state, event) matches StepView::Next(_, action) && action is CreateDir,
    ensures
        state.stage is Probing,
        event == EventView::Probed(Some(EntryKind::Directory)),
        copy_advance(state, event) matches StepView::Next(_, action) && action
            == (ActionView::CreateDir { path: state.stage->Probing_dest }),
{
    lemma_next_task_creates_nothing(state.todo);
    if let (StageView::Listing { source, dest }, EventView::Listed(entries)) = (state.stage, event) {
        lemma_next_task_creates_nothing(state.todo + tasks_of(source, dest, entries));
    }
}

/// Taking up a task asks for a probe, a file copy or a skip, never for a
/// directory to be created.
proof fn lemma_next_task_creates_nothing(todo: Seq<TaskView>)
    ensures
        next_task(todo) matches StepView::Next(_, action) ==> !(action is CreateDir),
{
}

/// Once a directory is listed, its first entry is taken up next: a directory
/// is probed for, a file is copied under the same name, anything else is left
/// out.
pub proof fn lemma_first_entry_comes_next(
    state: CopyStateView,
    source: Seq<char>,
    dest: Seq<char>,
    entries: Seq<DirEntryView>,
)
    requires
        state.stage == (StageView::Listing { source, dest }),
        entries.len() > 0,
    ensures
        copy_advance(state, EventView::Listed(entries)) matches StepView::Next(_, action)
            && action == match entries[0].kind {
            EntryKind::Directory => ActionView::Probe {
                path: joined(source, entries[0].name),
                strict: false,
            },
            EntryKind::File => ActionView::CopyFile {
                source: joined(source, entries[0].name),
                dest: joined(dest, entries[0].name),
            },
            EntryKind::Other => ActionView::Skip { path: joined(source, entries[0].name) },
        },
{
    let todo = state.todo + tasks_of(source, dest, entries);
    assert(todo.last() == task_of(source, dest, entries[0]));
}

/// An empty directory adds nothing to do: after its listing the copy goes on
/// with what was pending before, and ends where nothing was.
pub proof fn lemma_empty_directory(state: CopyStateView, source: Seq<char>, dest: Seq<char>)
    requires
        state.stage == (StageView::Listing { source, dest }),
    ensures
        copy_advance(state, EventView::Listed(seq![])) == next_task(state.todo),
{
    assert(state.todo + tasks_of(source, dest, seq![]) =~= state.todo);
}

} // verus!
