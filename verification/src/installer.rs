//! Installing the bootloader: the checks that come first, the run of the
//! install tool, and the staging of the support files.
//!
//! Nothing is rolled back. An installation that fails after the install tool
//! has run leaves the loader installed without its support files, or with a
//! part of them. An installation keeps no state of its own: run again, it asks
//! for the same actions, which overwrite what the run before left.

use vstd::prelude::*;
use crate::copier::{
    copy_advance, copy_dir_all, copy_dir_all_next, copy_machine, copy_start, CopyState,
    CopyStateView,
};
use crate::model::{BootError, BootErrorView};
use crate::paths::{join_path, joined};
use crate::plan::{
    asked, feed, is_kind, lemma_feed_ended, lemma_feed_first, lemma_feed_last, Action, ActionView,
    CommandOutputView, EntryKind, Event, EventView, Step, StepView,
};
use crate::tree::{dir_actions, dir_events, lemma_copy_follows_the_tree, Node};
use crate::platform::{install_binary, install_binary_path, Bios, Platform};

verus! {

/// Where an installation stands: the action whose outcome is awaited.
#[derive(Debug, Clone, PartialEq, Eq)]
pub enum InstallState {
    /// Probing for the directory of loader modules.
    Modules,
    /// Probing for the install tool.
    Binary,
    /// Running the install tool.
    Tool,
    /// Probing for the directory of support files.
    Assets,
    /// Copying the support files into the boot directory.
    Copying(CopyState),
}

pub enum InstallStateView {
    Modules,
    Binary,
    Tool,
    Assets,
    Copying(CopyStateView),
}

impl DeepView for InstallState {
    type V = InstallStateView;

    open spec fn deep_view(&self) -> InstallStateView {
        match self {
            InstallState::Modules => InstallStateView::Modules,
            InstallState::Binary => InstallStateView::Binary,
            InstallState::Tool => InstallStateView::Tool,
            InstallState::Assets => InstallStateView::Assets,
            InstallState::Copying(copy) => InstallStateView::Copying(copy.deep_view()),
        }
    }
}

/// A step of the copy of the support files, seen as a step of the
/// installation. The installation is complete when the copy is.
pub open spec fn after_copy(step: StepView<CopyStateView, ()>) -> StepView<InstallStateView, ()> {
    match step {
        StepView::Next(copy, action) => StepView::Next(InstallStateView::Copying(copy), action),
        StepView::Done(done) => StepView::Done(done),
        StepView::Failed(error) => StepView::Failed(error),
    }
}

fn lift_copy(step: Step<CopyState, ()>) -> (r: Step<InstallState, ()>)
    ensures
        r.deep_view() == after_copy(step.deep_view()),
{
    match step {
        Step::Next(copy, action) => Step::Next(InstallState::Copying(copy), action),
        Step::Done(done) => Step::Done(done),
        Step::Failed(error) => Step::Failed(error),
    }
}

/// The first step of an installation: probe for the loader modules.
pub open spec fn install_start(platform: Platform) -> StepView<InstallStateView, ()> {
    StepView::Next(
        InstallStateView::Modules,
        ActionView::Probe { path: platform.modules_dir_spec(), strict: true },
    )
}

/// The step that follows `event` in `state`.
///
/// The checks come in a fixed order and each failure is final: missing
/// modules, a missing install tool, a failed run of the tool (with what it
/// wrote to standard error), missing support files. The modules and the
/// support files are there if a directory is at their path, the install tool
/// if a file is at its path; anything else at the path counts as missing.
/// The tool is run against `boot` under the destination root; once it has
/// succeeded the support files are copied into that directory. An event that
/// does not answer the pending action fails the installation.
pub open spec fn install_advance(
    platform: Platform,
    dest_root: Seq<char>,
    device: Seq<char>,
    state: InstallStateView,
    event: EventView,
) -> StepView<InstallStateView, ()> {
    match (state, event) {
        (InstallStateView::Modules, EventView::Probed(found)) => if found == Some(
            EntryKind::Directory,
        ) {
            StepView::Next(
                InstallStateView::Binary,
                ActionView::Probe { path: install_binary(), strict: false },
            )
        } else {
            StepView::Failed(BootErrorView::ModulesMissing { path: platform.modules_dir_spec() })
        },
        (InstallStateView::Binary, EventView::Probed(found)) => if found == Some(EntryKind::File) {
            StepView::Next(
                InstallStateView::Tool,
                ActionView::Install(platform.install_command_spec(dest_root, device)),
            )
        } else {
            StepView::Failed(BootErrorView::BinaryMissing { path: install_binary() })
        },
        (InstallStateView::Tool, EventView::Ran(output)) => if output.success {
            StepView::Next(
                InstallStateView::Assets,
                ActionView::Probe { path: platform.support_source_spec(), strict: false },
            )
        } else {
            StepView::Failed(BootErrorView::InstallCommandFailed { stderr: output.stderr })
        },
        (InstallStateView::Assets, EventView::Probed(found)) => if found == Some(
            EntryKind::Directory,
        ) {
            after_copy(
                copy_start(
                    platform.support_source_spec(),
                    platform.support_dest_spec(joined(dest_root, "boot"@)),
                ),
            )
        } else {
            StepView::Failed(BootErrorView::AssetsMissing { path: platform.support_source_spec() })
        },
        (InstallStateView::Copying(copy), event) => after_copy(copy_advance(copy, event)),
        _ => StepView::Failed(BootErrorView::OutOfTurn),
    }
}

/// What the probe for the loader modules answered: whether their directory
/// is there. Any other event is out of turn.
pub open spec fn modules_found(event: EventView) -> Result<bool, BootErrorView> {
    match event {
        EventView::Probed(found) => Ok(found == Some(EntryKind::Directory)),
        _ => Err(BootErrorView::OutOfTurn),
    }
}

impl Bios {
    /// Reads the answer to the probe for the loader modules: `true` if their
    /// directory is there.
    pub fn check_grub_modules(&self, event: &Event) -> (r: Result<bool, BootError>)
        ensures
            match r {
                Ok(present) => modules_found(event.deep_view()) == Ok::<bool, BootErrorView>(
                    present,
                ),
                Err(error) => modules_found(event.deep_view()) == Err::<bool, BootErrorView>(
                    error.deep_view(),
                ),
            },
    {
        match event {
            Event::Probed(found) => Ok(is_kind(found, EntryKind::Directory)),
            _ => Err(BootError::OutOfTurn),
        }
    }

    /// Starts an installation of the bootloader.
    pub fn run_grub_install(&self) -> (r: Step<InstallState, ()>)
        ensures
            r.deep_view() == install_start(self.platform),
    {
        Step::Next(
            InstallState::Modules,
            Action::Probe { path: self.platform.modules_dir(), strict: true },
        )
    }

    /// Takes the installation to `device`, under `dest_root`, one step
    /// further, given the outcome of the action that was pending in `state`.
    pub fn run_grub_install_next(
        &self,
        dest_root: &str,
        device: &str,
        state: InstallState,
        event: Event,
    ) -> (r: Step<InstallState, ()>)
        ensures
            r.deep_view() == install_advance(
                self.platform,
                dest_root@,
                device@,
                state.deep_view(),
                event.deep_view(),
            ),
    {
        let platform = self.platform;
        match (state, event) {
            (InstallState::Modules, event) => match self.check_grub_modules(&event) {
                Ok(true) => Step::Next(
                    InstallState::Binary,
                    Action::Probe { path: install_binary_path(), strict: false },
                ),
                Ok(false) => Step::Failed(
                    BootError::ModulesMissing { path: platform.modules_dir() },
                ),
                Err(error) => Step::Failed(error),
            },
            (InstallState::Binary, Event::Probed(found)) => {
                if is_kind(&found, EntryKind::File) {
                    Step::Next(
                        InstallState::Tool,
                        Action::Install(platform.install_command(dest_root, device)),
                    )
                } else {
                    Step::Failed(BootError::BinaryMissing { path: install_binary_path() })
                }
            },
            (InstallState::Tool, Event::Ran(output)) => {
                if output.success {
                    Step::Next(
                        InstallState::Assets,
                        Action::Probe { path: platform.support_source(), strict: false },
                    )
                } else {
                    Step::Failed(BootError::InstallCommandFailed { stderr: output.stderr })
                }
            },
            (InstallState::Assets, Event::Probed(found)) => {
                if is_kind(&found, EntryKind::Directory) {
                    let boot_dir = join_path(dest_root, "boot");
                    let source = platform.support_source();
                    let dest = platform.support_dest(boot_dir.as_str());
                    lift_copy(copy_dir_all(source.as_str(), dest.as_str()))
                } else {
                    Step::Failed(BootError::AssetsMissing { path: platform.support_source() })
                }
            },
            (InstallState::Copying(copy), event) => lift_copy(copy_dir_all_next(copy, event)),
            _ => Step::Failed(BootError::OutOfTurn),
        }
    }
}

/// The step function of an installation to `device`, under `dest_root`.
pub open spec fn install_machine(platform: Platform, dest_root: Seq<char>, device: Seq<char>) -> spec_fn(
    InstallStateView,
    EventView,
) -> StepView<InstallStateView, ()> {
    |state: InstallStateView, event: EventView|
        install_advance(platform, dest_root, device, state, event)
}

/// The step at which an installation stands after the driver has reported
/// `events`.
pub open spec fn install_run(
    platform: Platform,
    dest_root: Seq<char>,
    device: Seq<char>,
    events: Seq<EventView>,
) -> StepView<InstallStateView, ()> {
    feed(install_machine(platform, dest_root, device), install_start(platform), events)
}

/// The actions that an installation asked for while the driver reported
/// `events`.
pub open spec fn install_asked(
    platform: Platform,
    dest_root: Seq<char>,
    device: Seq<char>,
    events: Seq<EventView>,
) -> Seq<ActionView> {
    asked(install_machine(platform, dest_root, device), install_start(platform), events)
}

/// Unless the directory of loader modules is there, the installation fails
/// with `ModulesMissing`, and all that it ever asked for is the probe for the
/// modules: the install tool is not run.
pub proof fn lemma_missing_modules_never_installs(
    platform: Platform,
    dest_root: Seq<char>,
    device: Seq<char>,
    events: Seq<EventView>,
)
    requires
        events.len() > 0,
        events[0] matches EventView::Probed(found) && found != Some(EntryKind::Directory),
    ensures
        install_run(platform, dest_root, device, events) == StepView::<
            InstallStateView,
            (),
        >::Failed(BootErrorView::ModulesMissing { path: platform.modules_dir_spec() }),
        install_asked(platform, dest_root, device, events) == seq![
            ActionView::Probe { path: platform.modules_dir_spec(), strict: true },
        ],
{
    let machine = install_machine(platform, dest_root, device);
    let probe = ActionView::Probe { path: platform.modules_dir_spec(), strict: true };
    let failed = StepView::<InstallStateView, ()>::Failed(
        BootErrorView::ModulesMissing { path: platform.modules_dir_spec() },
    );
    assert(events =~= seq![events[0]] + events.skip(1));
    lemma_feed_first(machine, InstallStateView::Modules, probe, events[0], events.skip(1));
    lemma_feed_ended(machine, failed, events.skip(1));
    assert(seq![probe] + Seq::<ActionView>::empty() =~= seq![probe]);
}

/// Whether an event reports a successful run of a tool.
pub open spec fn tool_succeeded(event: EventView) -> bool {
    event matches EventView::Ran(output) && output.success
}

/// The install tool is asked for in one situation only: right after the
/// directory of modules and then the tool itself, a file, were found. The command is then the one
/// that the platform fixes for the destination root and the device.
pub proof fn lemma_install_needs_both_checks(
    platform: Platform,
    dest_root: Seq<char>,
    device: Seq<char>,
    events: Seq<EventView>,
)
    requires
        install_run(platform, dest_root, device, events) matches StepView::Next(_, action)
            && action is Install,
    ensures
        events =~= seq![
            EventView::Probed(Some(EntryKind::Directory)),
            EventView::Probed(Some(EntryKind::File)),
        ],
        install_run(platform, dest_root, device, events) == StepView::<
            InstallStateView,
            (),
        >::Next(
            InstallStateView::Tool,
            ActionView::Install(platform.install_command_spec(dest_root, device)),
        ),
{
    lemma_run_state(platform, dest_root, device, events);
}

/// Nothing is copied before the install tool has run and succeeded: a run
/// that asks for a directory or a file to be written has had a successful
/// answer from the tool as its third event.
pub proof fn lemma_copy_follows_install(
    platform: Platform,
    dest_root: Seq<char>,
    device: Seq<char>,
    events: Seq<EventView>,
)
    requires
        install_run(platform, dest_root, device, events) matches StepView::Next(_, action) && (
        action is CreateDir || action is CopyFile),
    ensures
        events.len() >= 4,
        tool_succeeded(events[2]),
{
    lemma_run_state(platform, dest_root, device, events);
}

/// The state of a running installation tells what was reported so far.
proof fn lemma_run_state(
    platform: Platform,
    dest_root: Seq<char>,
    device: Seq<char>,
    events: Seq<EventView>,
)
    ensures
        match install_run(platform, dest_root, device, events) {
            StepView::Next(InstallStateView::Modules, action) => events.len() == 0 && action
                is Probe,
            StepView::Next(InstallStateView::Binary, action) => events =~= seq![
                EventView::Probed(Some(EntryKind::Directory)),
            ] && action is Probe,
            StepView::Next(InstallStateView::Tool, action) => events =~= seq![
                EventView::Probed(Some(EntryKind::Directory)),
                EventView::Probed(Some(EntryKind::File)),
            ] && action == ActionView::Install(platform.install_command_spec(dest_root, device)),
            StepView::Next(InstallStateView::Assets, action) => {
                &&& events.len() == 3
                &&& action is Probe
                &&& tool_succeeded(events[2])
            },
            StepView::Next(InstallStateView::Copying(_), action) => {
                &&& events.len() >= 4
                &&& !(action is Install)
                &&& tool_succeeded(events[2])
            },
            _ => true,
        },
    decreases events.len(),
{
    if events.len() > 0 {
        let before = events.drop_last();
        lemma_run_state(platform, dest_root, device, before);
        lemma_feed_last(
            install_machine(platform, dest_root, device),
            install_start(platform),
            events,
        );
        assert(events =~= before.push(events.last()));
        assert(forall|k: int| 0 <= k < before.len() ==> before[k] == events[k]);
    }
}

/// While the support files are copied, the installation does what the copy
/// does, and ends as the copy ends.
proof fn lemma_copying_is_the_copy(
    platform: Platform,
    dest_root: Seq<char>,
    device: Seq<char>,
    step: StepView<CopyStateView, ()>,
    events: Seq<EventView>,
)
    ensures
        feed(install_machine(platform, dest_root, device), after_copy(step), events) == after_copy(
            feed(copy_machine(), step, events),
        ),
        asked(install_machine(platform, dest_root, device), after_copy(step), events) == asked(
            copy_machine(),
            step,
            events,
        ),
    decreases events.len(),
{
    if events.len() > 0 {
        match step {
            StepView::Next(copy, _) => {
                lemma_copying_is_the_copy(
                    platform,
                    dest_root,
                    device,
                    copy_advance(copy, events[0]),
                    events.skip(1),
                );
            },
            _ => {},
        }
    }
}

/// What a truthful driver reports of an installation on a system that has
/// the directory of modules, the install tool as a file and the support
/// files as a directory that holds `children`, and on which the tool answers
/// with `output`.
pub open spec fn install_events(output: CommandOutputView, children: Seq<Node>) -> Seq<EventView> {
    seq![
        EventView::Probed(Some(EntryKind::Directory)),
        EventView::Probed(Some(EntryKind::File)),
        EventView::Ran(output),
        EventView::Probed(Some(EntryKind::Directory)),
    ] + dir_events(children)
}

/// The whole of an installation. On a system that has all that is needed and
/// on which the install tool succeeds, the installation ends well, having
/// asked for exactly this: the two probes, one run of the install tool
/// against the boot directory and the device, the probe for the support
/// files, and the copy of every one of them into the boot directory. What
/// the boot directory held before plays no part.
pub proof fn lemma_install_procedure(
    platform: Platform,
    dest_root: Seq<char>,
    device: Seq<char>,
    output: CommandOutputView,
    children: Seq<Node>,
)
    requires
        output.success,
    ensures
        install_run(platform, dest_root, device, install_events(output, children)) == StepView::<
            InstallStateView,
            (),
        >::Done(()),
        install_asked(platform, dest_root, device, install_events(output, children)) == seq![
            ActionView::Probe { path: platform.modules_dir_spec(), strict: true },
            ActionView::Probe { path: install_binary(), strict: false },
            ActionView::Install(platform.install_command_spec(dest_root, device)),
            ActionView::Probe { path: platform.support_source_spec(), strict: false },
        ] + dir_actions(
            platform.support_source_spec(),
            platform.support_dest_spec(joined(dest_root, "boot"@)),
            children,
        ),
{
    let machine = install_machine(platform, dest_root, device);
    let source = platform.support_source_spec();
    let dest = platform.support_dest_spec(joined(dest_root, "boot"@));
    let a1 = ActionView::Probe { path: platform.modules_dir_spec(), strict: true };
    let a2 = ActionView::Probe { path: install_binary(), strict: false };
    let a3 = ActionView::Install(platform.install_command_spec(dest_root, device));
    let a4 = ActionView::Probe { path: source, strict: false };
    let copying = dir_events(children);
    let dir = EventView::Probed(Some(EntryKind::Directory));
    let file = EventView::Probed(Some(EntryKind::File));
    let e4 = seq![dir] + copying;
    let e3 = seq![EventView::Ran(output)] + e4;
    let e2 = seq![file] + e3;
    let e1 = seq![dir] + e2;
    assert(install_events(output, children) =~= e1);
    lemma_feed_first(machine, InstallStateView::Modules, a1, dir, e2);
    lemma_feed_first(machine, InstallStateView::Binary, a2, file, e3);
    lemma_feed_first(machine, InstallStateView::Tool, a3, EventView::Ran(output), e4);
    lemma_feed_first(machine, InstallStateView::Assets, a4, dir, copying);
    lemma_copying_is_the_copy(platform, dest_root, device, copy_start(source, dest), copying);
    lemma_copy_follows_the_tree(source, dest, children);
    assert(seq![a1] + (seq![a2] + (seq![a3] + (seq![a4] + dir_actions(source, dest, children))))
        =~= seq![a1, a2, a3, a4] + dir_actions(source, dest, children));
}

} // verus!
