//! The vocabulary shared by the lifecycle operations: the actions that an
//! operation asks its driver to perform, the outcomes that the driver reports
//! back, and the step that an operation takes on each outcome.
//!
//! An operation never touches the system itself. It starts with a step; while
//! the step is `Next`, the driver performs the action and hands the outcome to
//! the operation's `advance` together with the state, which gives the step
//! after. The driver must not run two operations at once against the same
//! device or destination root.

use vstd::prelude::*;
use crate::model::{Adoptable, AdoptableView, BootError, BootErrorView, ContentMetadata, ContentMetadataView};

verus! {

/// A program and its arguments.
#[derive(Debug, Clone, PartialEq, Eq)]
pub struct CommandLine {
    pub program: String,
    pub args: Vec<String>,
}

pub struct CommandLineView {
    pub program: Seq<char>,
    pub args: Seq<Seq<char>>,
}

impl DeepView for CommandLine {
    type V = CommandLineView;

    open spec fn deep_view(&self) -> CommandLineView {
        CommandLineView { program: self.program@, args: self.args.deep_view() }
    }
}

/// Appends a copy of `s` to a list of texts.
pub fn push_text(list: &mut Vec<String>, s: &str)
    ensures
        final(list).deep_view() == old(list).deep_view().push(s@),
{
    list.push(String::from_str(s));
    assert(list.deep_view() =~= old(list).deep_view().push(s@));
}

/// What a finished command left behind.
#[derive(Debug, Clone, PartialEq, Eq)]
pub struct CommandOutput {
    pub success: bool,
    pub stdout: Vec<u8>,
    pub stderr: Vec<u8>,
}

pub struct CommandOutputView {
    pub success: bool,
    pub stdout: Seq<u8>,
    pub stderr: Seq<u8>,
}

impl DeepView for CommandOutput {
    type V = CommandOutputView;

    open spec fn deep_view(&self) -> CommandOutputView {
        CommandOutputView { success: self.success, stdout: self.stdout@, stderr: self.stderr@ }
    }
}

/// What kind of thing a directory entry is.
#[derive(Debug, Clone, Copy, PartialEq, Eq, Structural)]
pub enum EntryKind {
    Directory,
    File,
    /// Anything else: a symlink, a device node, a socket.
    Other,
}

/// Whether a probe found something of the given kind.
pub fn is_kind(found: &Option<EntryKind>, kind: EntryKind) -> (r: bool)
    ensures
        r == (*found == Some(kind)),
{
    match found {
        Some(k) => *k == kind,
        None => false,
    }
}

/// An entry of a directory: its name within the directory, and its kind.
#[derive(Debug, Clone, PartialEq, Eq)]
pub struct DirEntry {
    pub name: String,
    pub kind: EntryKind,
}

pub struct DirEntryView {
    pub name: Seq<char>,
    pub kind: EntryKind,
}

impl DeepView for DirEntry {
    type V = DirEntryView;

    open spec fn deep_view(&self) -> DirEntryView {
        DirEntryView { name: self.name@, kind: self.kind }
    }
}

/// What an operation asks its driver to do next.
#[derive(Debug, Clone, PartialEq, Eq)]
pub enum Action {
    /// Report what is at the path, following symlinks: its kind, or that
    /// nothing is there. Where the system cannot tell, a `strict` probe ends
    /// the operation with the system's error; to any other probe the answer
    /// is then that nothing is there.
    Probe { path: String, strict: bool },
    /// Run a tool that only reads system state, and report its output.
    Query(CommandLine),
    /// Run the install tool, which writes to the device and the boot
    /// directory, and report its output.
    Install(CommandLine),
    /// Create the directory and every missing ancestor of it.
    CreateDir { path: String },
    /// Report the entries of the directory.
    ListDir { path: String },
    /// Copy the file `source` to `dest`, byte for byte.
    CopyFile { source: String, dest: String },
    /// Leave the entry out of the copy, with a warning.
    Skip { path: String },
    /// Report whether the system was booted through EFI.
    FirmwareMode,
    /// Report the unmanaged installation that the system carries, if any.
    AdoptState,
    /// Report the update metadata stored for the component, if any.
    ReadUpdate,
    /// Ask the package database which build owns `path` under `sysroot`.
    PackageInfo { sysroot: String, path: String },
    /// Store `meta` as the component's update metadata under `sysroot`.
    WriteUpdate { sysroot: String, meta: ContentMetadata },
}

pub enum ActionView {
    Probe { path: Seq<char>, strict: bool },
    Query(CommandLineView),
    Install(CommandLineView),
    CreateDir { path: Seq<char> },
    ListDir { path: Seq<char> },
    CopyFile { source: Seq<char>, dest: Seq<char> },
    Skip { path: Seq<char> },
    FirmwareMode,
    AdoptState,
    ReadUpdate,
    PackageInfo { sysroot: Seq<char>, path: Seq<char> },
    WriteUpdate { sysroot: Seq<char>, meta: ContentMetadataView },
}

impl DeepView for Action {
    type V = ActionView;

    open spec fn deep_view(&self) -> ActionView {
        match self {
            Action::Probe { path, strict } => ActionView::Probe { path: path@, strict: *strict },
            Action::Query(c) => ActionView::Query(c.deep_view()),
            Action::Install(c) => ActionView::Install(c.deep_view()),
            Action::CreateDir { path } => ActionView::CreateDir { path: path@ },
            Action::ListDir { path } => ActionView::ListDir { path: path@ },
            Action::CopyFile { source, dest } => ActionView::CopyFile {
                source: source@,
                dest: dest@,
            },
            Action::Skip { path } => ActionView::Skip { path: path@ },
            Action::FirmwareMode => ActionView::FirmwareMode,
            Action::AdoptState => ActionView::AdoptState,
            Action::ReadUpdate => ActionView::ReadUpdate,
            Action::PackageInfo { sysroot, path } => ActionView::PackageInfo {
                sysroot: sysroot@,
                path: path@,
            },
            Action::WriteUpdate { sysroot, meta } => ActionView::WriteUpdate {
                sysroot: sysroot@,
                meta: meta.deep_view(),
            },
        }
    }
}

impl ActionView {
    /// Whether performing the action changes the device, the boot directory
    /// or the stored metadata.
    pub open spec fn is_destructive(self) -> bool {
        self is Install || self is CreateDir || self is CopyFile || self is WriteUpdate
    }
}

impl Action {
    /// Whether performing the action changes the device, the boot directory
    /// or the stored metadata.
    pub fn is_destructive(&self) -> (r: bool)
        ensures
            r == self.deep_view().is_destructive(),
    {
        match self {
            Action::Install(_) => true,
            Action::CreateDir { .. } => true,
            Action::CopyFile { .. } => true,
            Action::WriteUpdate { .. } => true,
            _ => false,
        }
    }
}

/// What the driver reports of the action it performed.
#[derive(Debug, Clone, PartialEq, Eq)]
pub enum Event {
    /// Answers `Probe`: the kind of what is at the path, or `None` where
    /// nothing is there.
    Probed(Option<EntryKind>),
    /// Answers `Query` and `Install`.
    Ran(CommandOutput),
    /// Answers `CreateDir`.
    Created,
    /// Answers `ListDir`: the entries, in the order in which they were read.
    Listed(Vec<DirEntry>),
    /// Answers `CopyFile`.
    FileCopied,
    /// Answers `Skip`.
    Skipped,
    /// Answers `FirmwareMode`: whether the system was booted through EFI.
    FirmwareMode(bool),
    /// Answers `AdoptState`.
    AdoptState(Option<Adoptable>),
    /// Answers `ReadUpdate`.
    Update(Option<ContentMetadata>),
    /// Answers `PackageInfo`.
    Package(ContentMetadata),
    /// Answers `WriteUpdate`.
    Written,
}

pub enum EventView {
    Probed(Option<EntryKind>),
    Ran(CommandOutputView),
    Created,
    Listed(Seq<DirEntryView>),
    FileCopied,
    Skipped,
    FirmwareMode(bool),
    AdoptState(Option<AdoptableView>),
    Update(Option<ContentMetadataView>),
    Package(ContentMetadataView),
    Written,
}

impl DeepView for Event {
    type V = EventView;

    open spec fn deep_view(&self) -> EventView {
        match self {
            Event::Probed(found) => EventView::Probed(*found),
            Event::Ran(o) => EventView::Ran(o.deep_view()),
            Event::Created => EventView::Created,
            Event::Listed(entries) => EventView::Listed(entries.deep_view()),
            Event::FileCopied => EventView::FileCopied,
            Event::Skipped => EventView::Skipped,
            Event::FirmwareMode(b) => EventView::FirmwareMode(*b),
            Event::AdoptState(a) => EventView::AdoptState(a.deep_view()),
            Event::Update(m) => EventView::Update(m.deep_view()),
            Event::Package(m) => EventView::Package(m.deep_view()),
            Event::Written => EventView::Written,
        }
    }
}

/// One step of an operation with states `S` and result `T`.
#[derive(Debug, Clone, PartialEq, Eq)]
pub enum Step<S, T> {
    /// The driver performs the action and reports its outcome in state `S`.
    Next(S, Action),
    /// The operation is complete.
    Done(T),
    /// The operation failed; nothing more is to be done.
    Failed(BootError),
}

pub enum StepView<S, T> {
    Next(S, ActionView),
    Done(T),
    Failed(BootErrorView),
}

impl<S: DeepView, T: DeepView> DeepView for Step<S, T> {
    type V = StepView<S::V, T::V>;

    open spec fn deep_view(&self) -> StepView<S::V, T::V> {
        match self {
            Step::Next(s, a) => StepView::Next(s.deep_view(), a.deep_view()),
            Step::Done(t) => StepView::Done(t.deep_view()),
            Step::Failed(e) => StepView::Failed(e.deep_view()),
        }
    }
}

/// The step at which an operation stands after `events` were reported, in
/// order, from `step` on. `advance` is the operation's step function. Events
/// reported after the operation has ended change nothing.
pub open spec fn feed<S, T>(
    advance: spec_fn(S, EventView) -> StepView<S, T>,
    step: StepView<S, T>,
    events: Seq<EventView>,
) -> StepView<S, T>
    decreases events.len(),
{
    if events.len() == 0 {
        step
    } else {
        match step {
            StepView::Next(state, _) => feed(advance, advance(state, events[0]), events.skip(1)),
            ended => ended,
        }
    }
}

/// The actions that an operation asked for, in order, while `events` were
/// reported from `step` on: the action that each event answered.
pub open spec fn asked<S, T>(
    advance: spec_fn(S, EventView) -> StepView<S, T>,
    step: StepView<S, T>,
    events: Seq<EventView>,
) -> Seq<ActionView>
    decreases events.len(),
{
    if events.len() == 0 {
        seq![]
    } else {
        match step {
            StepView::Next(state, action) => seq![action] + asked(
                advance,
                advance(state, events[0]),
                events.skip(1),
            ),
            _ => seq![],
        }
    }
}

/// Reporting `event` and then `more` is taking one step and reporting `more`.
pub proof fn lemma_feed_first<S, T>(
    advance: spec_fn(S, EventView) -> StepView<S, T>,
    state: S,
    action: ActionView,
    event: EventView,
    more: Seq<EventView>,
)
    ensures
        feed(advance, StepView::Next(state, action), seq![event] + more) == feed(
            advance,
            advance(state, event),
            more,
        ),
        asked(advance, StepView::Next(state, action), seq![event] + more) == seq![action] + asked(
            advance,
            advance(state, event),
            more,
        ),
{
    let events = seq![event] + more;
    assert(events[0] == event);
    assert(events.skip(1) =~= more);
}

/// The last event is reported to the step that the events before it led to.
pub proof fn lemma_feed_last<S, T>(
    advance: spec_fn(S, EventView) -> StepView<S, T>,
    step: StepView<S, T>,
    events: Seq<EventView>,
)
    requires
        events.len() > 0,
    ensures
        feed(advance, step, events) == match feed(advance, step, events.drop_last()) {
            StepView::Next(state, _) => advance(state, events.last()),
            ended => ended,
        },
        asked(advance, step, events) == match feed(advance, step, events.drop_last()) {
            StepView::Next(_, action) => asked(advance, step, events.drop_last()).push(action),
            _ => asked(advance, step, events.drop_last()),
        },
    decreases events.len(),
{
    let before = events.drop_last();
    match step {
        StepView::Next(state, action) => {
            let tail = events.skip(1);
            let second = advance(state, events[0]);
            if events.len() == 1 {
                assert(tail.len() == 0);
                assert(before.len() == 0);
                assert(asked(advance, second, tail) =~= Seq::<ActionView>::empty());
                assert(asked(advance, step, events) =~= seq![action]);
                assert(asked(advance, step, before).push(action) =~= seq![action]);
            } else {
                lemma_feed_last(advance, second, tail);
                assert(before.skip(1) =~= tail.drop_last());
                assert(before[0] == events[0]);
                assert(tail.last() == events.last());
                let earlier = asked(advance, second, tail.drop_last());
                assert(asked(advance, step, before) == seq![action] + earlier);
                match feed(advance, second, tail.drop_last()) {
                    StepView::Next(_, pending) => {
                        assert(seq![action] + earlier.push(pending) =~= (seq![action]
                            + earlier).push(pending));
                    },
                    _ => {},
                }
            }
        },
        _ => {},
    }
}

/// An operation that has ended stands where it ended, and asks for nothing.
pub proof fn lemma_feed_ended<S, T>(
    advance: spec_fn(S, EventView) -> StepView<S, T>,
    step: StepView<S, T>,
    events: Seq<EventView>,
)
    requires
        !(step is Next),
    ensures
        feed(advance, step, events) == step,
        asked(advance, step, events) == Seq::<ActionView>::empty(),
{
}

} // verus!
