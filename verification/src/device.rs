//! Finding the device that receives the bootloader.
//!
//! The device is looked up afresh by every operation that needs it, and is
//! never stored: the layout of the disks may change between two calls.

use vstd::prelude::*;
use vstd::utf8::{decode_utf8, valid_utf8};
use crate::model::{BootError, BootErrorView, Fault};
use crate::plan::{
    feed, lemma_feed_last, push_text, Action, ActionView, CommandLine, CommandLineView,
    CommandOutput, CommandOutputView, Event, EventView, Step, StepView,
};
use crate::platform::{Bios, Platform, Strategy};
use crate::text::{decode_text, lemma_trimmed_is_tight, trim, trimmed, white_space};

verus! {

/// What a query tool answered: the trimmed text of its standard output. A
/// failed run, output that is no text, and empty output are faults.
pub open spec fn output_text(output: CommandOutputView) -> Result<Seq<char>, Fault> {
    if !output.success {
        Err(Fault::ToolFailed)
    } else if !valid_utf8(output.stdout) {
        Err(Fault::NotText)
    } else if trimmed(decode_utf8(output.stdout)).len() == 0 {
        Err(Fault::Empty)
    } else {
        Ok(trimmed(decode_utf8(output.stdout)))
    }
}

/// Reads the answer of a query tool.
pub fn read_output(output: CommandOutput) -> (r: Result<String, Fault>)
    ensures
        match output_text(output.deep_view()) {
            Ok(text) => r matches Ok(s) && s@ == text,
            Err(fault) => r == Err::<String, Fault>(fault),
        },
{
    if !output.success {
        return Err(Fault::ToolFailed);
    }
    match decode_text(output.stdout) {
        None => Err(Fault::NotText),
        Some(text) => {
            let t = trim(text.as_str());
            if t.unicode_len() == 0 {
                Err(Fault::Empty)
            } else {
                Ok(String::from_str(t))
            }
        },
    }
}

/// The query for the device that is mounted at `/boot`.
pub open spec fn mount_source_query() -> CommandLineView {
    CommandLineView {
        program: "findmnt"@,
        args: seq!["--noheadings"@, "--nofsroot"@, "--output"@, "SOURCE"@, "/boot"@],
    }
}

/// The query for the disk that `partition` is a part of.
pub open spec fn parent_device_query(partition: Seq<char>) -> CommandLineView {
    CommandLineView {
        program: "lsblk"@,
        args: seq!["--paths"@, "--noheadings"@, "--output"@, "PKNAME"@, partition],
    }
}

/// The query for the device behind the symlink of the PReP boot partition.
pub open spec fn symlink_query() -> CommandLineView {
    CommandLineView {
        program: "realpath"@,
        args: seq!["/dev/disk/by-partlabel/PowerPC-PReP-boot"@],
    }
}

fn build_mount_source_query() -> (r: CommandLine)
    ensures
        r.deep_view() == mount_source_query(),
{
    let mut args: Vec<String> = Vec::new();
    push_text(&mut args, "--noheadings");
    push_text(&mut args, "--nofsroot");
    push_text(&mut args, "--output");
    push_text(&mut args, "SOURCE");
    push_text(&mut args, "/boot");
    assert(args.deep_view() =~= mount_source_query().args);
    CommandLine { program: String::from_str("findmnt"), args }
}

fn build_parent_device_query(partition: &str) -> (r: CommandLine)
    ensures
        r.deep_view() == parent_device_query(partition@),
{
    let mut args: Vec<String> = Vec::new();
    push_text(&mut args, "--paths");
    push_text(&mut args, "--noheadings");
    push_text(&mut args, "--output");
    push_text(&mut args, "PKNAME");
    push_text(&mut args, partition);
    assert(args.deep_view() =~= parent_device_query(partition@).args);
    CommandLine { program: String::from_str("lsblk"), args }
}

fn build_symlink_query() -> (r: CommandLine)
    ensures
        r.deep_view() == symlink_query(),
{
    let mut args: Vec<String> = Vec::new();
    push_text(&mut args, "/dev/disk/by-partlabel/PowerPC-PReP-boot");
    assert(args.deep_view() =~= symlink_query().args);
    CommandLine { program: String::from_str("realpath"), args }
}

/// Where a device lookup stands: the query whose answer is awaited.
#[derive(Debug, Clone, Copy, PartialEq, Eq, Structural)]
pub enum ResolveState {
    /// Asked which device is mounted at `/boot`.
    MountSource,
    /// Asked which disk that device is a part of.
    ParentDevice,
    /// Asked where the symlink of the boot partition points.
    SymlinkTarget,
}

impl DeepView for ResolveState {
    type V = ResolveState;

    open spec fn deep_view(&self) -> ResolveState {
        *self
    }
}

/// The first query of a lookup. The platform's strategy alone decides it.
pub open spec fn resolve_start(platform: Platform) -> StepView<ResolveState, Seq<char>> {
    match platform.strategy_spec() {
        Strategy::MountChain => StepView::Next(
            ResolveState::MountSource,
            ActionView::Query(mount_source_query()),
        ),
        Strategy::FixedSymlink => StepView::Next(
            ResolveState::SymlinkTarget,
            ActionView::Query(symlink_query()),
        ),
    }
}

/// The step that follows `event` in `state`. The answer to the first query of
/// the mount chain becomes the argument of the second; the answer to the last
/// query is the device. Any fault in an answer fails the lookup: nothing is
/// tried again.
pub open spec fn resolve_advance(state: ResolveState, event: EventView) -> StepView<
    ResolveState,
    Seq<char>,
> {
    match event {
        EventView::Ran(output) => match output_text(output) {
            Err(fault) => StepView::Failed(BootErrorView::Resolution(fault)),
            Ok(text) => match state {
                ResolveState::MountSource => StepView::Next(
                    ResolveState::ParentDevice,
                    ActionView::Query(parent_device_query(text)),
                ),
                ResolveState::ParentDevice => StepView::Done(text),
                ResolveState::SymlinkTarget => StepView::Done(text),
            },
        },
        _ => StepView::Failed(BootErrorView::OutOfTurn),
    }
}

impl Bios {
    /// Starts the lookup of the device that receives the bootloader.
    pub fn get_device(&self) -> (r: Step<ResolveState, String>)
        ensures
            r.deep_view() == resolve_start(self.platform),
    {
        match self.platform.strategy() {
            Strategy::MountChain => Step::Next(
                ResolveState::MountSource,
                Action::Query(build_mount_source_query()),
            ),
            Strategy::FixedSymlink => Step::Next(
                ResolveState::SymlinkTarget,
                Action::Query(build_symlink_query()),
            ),
        }
    }

    /// Takes the lookup one step further, given the outcome of the query
    /// that was pending in `state`.
    pub fn get_device_next(&self, state: ResolveState, event: Event) -> (r: Step<
        ResolveState,
        String,
    >)
        ensures
            r.deep_view() == resolve_advance(state, event.deep_view()),
    {
        match event {
            Event::Ran(output) => match read_output(output) {
                Err(fault) => Step::Failed(BootError::Resolution(fault)),
                Ok(text) => match state {
                    ResolveState::MountSource => Step::Next(
                        ResolveState::ParentDevice,
                        Action::Query(build_parent_device_query(text.as_str())),
                    ),
                    ResolveState::ParentDevice => Step::Done(text),
                    ResolveState::SymlinkTarget => Step::Done(text),
                },
            },
            _ => Step::Failed(BootError::OutOfTurn),
        }
    }
}

/// A lookup asks for queries only, and a device that it finds is a text
/// without white space at either end, and not empty.
pub proof fn lemma_resolve_step_is_harmless(state: ResolveState, event: EventView)
    ensures
        resolve_advance(state, event) matches StepView::Next(_, action) ==> action is Query,
        resolve_advance(state, event) matches StepView::Done(device) ==> {
            &&& device.len() > 0
            &&& !white_space(device.first())
            &&& !white_space(device.last())
        },
{
    if let EventView::Ran(output) = event {
        if output.success && valid_utf8(output.stdout) {
            lemma_trimmed_is_tight(decode_utf8(output.stdout));
        }
    }
}

/// The step function of a lookup.
pub open spec fn resolve_machine() -> spec_fn(ResolveState, EventView) -> StepView<
    ResolveState,
    Seq<char>,
> {
    |state: ResolveState, event: EventView| resolve_advance(state, event)
}

/// The step at which a lookup stands after the driver has reported `events`.
pub open spec fn resolve_run(platform: Platform, events: Seq<EventView>) -> StepView<
    ResolveState,
    Seq<char>,
> {
    feed(resolve_machine(), resolve_start(platform), events)
}

/// A lookup ends with the answer to the last query of its strategy: the
/// second query on the mount chain, the only one for the fixed symlink. It
/// asks for nothing more, and tries nothing again.
pub proof fn lemma_lookup_asks_once_or_twice(platform: Platform, events: Seq<EventView>)
    requires
        events.len() > 0,
        resolve_run(platform, events.drop_last()) is Next,
    ensures
        events.len() <= 2,
        resolve_run(platform, events) is Done ==> events.len() == match platform.strategy_spec() {
            Strategy::MountChain => 2int,
            Strategy::FixedSymlink => 1int,
        },
        resolve_run(platform, events) is Next ==> events.len() == 1 && platform.strategy_spec()
            == Strategy::MountChain,
    decreases events.len(),
{
    let before = events.drop_last();
    lemma_feed_last(resolve_machine(), resolve_start(platform), events);
    if before.len() > 0 {
        lemma_feed_last(resolve_machine(), resolve_start(platform), before);
        lemma_lookup_asks_once_or_twice(platform, before);
        assert(before.drop_last().len() == 0);
    }
}

} // verus!
