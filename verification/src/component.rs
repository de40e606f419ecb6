//! The lifecycle of the component: installing it, describing the content
//! that an update would install, updating, and adopting an installation
//! that was made by other means.
//!
//! The device is looked up anew by every operation that writes to it, and
//! never enters a record: a record names the content that is installed, not
//! the place.

use vstd::prelude::*;
use crate::device::{resolve_advance, resolve_start, ResolveState};
use crate::installer::{install_advance, install_start, InstallState, InstallStateView};
use crate::model::{
    Adoptable, AdoptableView, BootError, BootErrorView, ContentMetadata, ContentMetadataView,
    InstalledContent, InstalledContentView, ValidationResult,
};
use crate::partition::{
    first_partition, listing_result, partition_advance, partition_start, PartitionState,
};
use crate::paths::joined;
use crate::plan::{
    asked, feed, is_kind, lemma_feed_last, Action, ActionView, EntryKind, Event, EventView, Step,
    StepView,
};
use crate::platform::{grub_bin, install_binary_under, Bios, Platform};

verus! {

/// The record of a normal installation or update of `meta`.
pub open spec fn installed(meta: ContentMetadataView) -> InstalledContentView {
    InstalledContentView { meta, filetree: None, adopted_from: None }
}

/// The record of an adoption: `meta` is now installed, in place of the
/// unmanaged installation of version `previous`.
pub open spec fn adopted(meta: ContentMetadataView, previous: Seq<char>) -> InstalledContentView {
    InstalledContentView { meta, filetree: None, adopted_from: Some(previous) }
}

/// The root of the running system, where updates and adoptions install.
pub open spec fn system_root() -> Seq<char> {
    "/"@
}

// ---------------------------------------------------------------------------
// Installing to the device of the running system
// ---------------------------------------------------------------------------

/// Where an installation to the running system stands.
#[derive(Debug, Clone, PartialEq, Eq)]
pub enum DeployState {
    /// Looking up the boot device.
    Resolving(ResolveState),
    /// Installing to `device`.
    Installing { device: String, install: InstallState },
}

pub enum DeployStateView {
    Resolving(ResolveState),
    Installing { device: Seq<char>, install: InstallStateView },
}

impl DeepView for DeployState {
    type V = DeployStateView;

    open spec fn deep_view(&self) -> DeployStateView {
        match self {
            DeployState::Resolving(lookup) => DeployStateView::Resolving(*lookup),
            DeployState::Installing { device, install } => DeployStateView::Installing {
                device: device@,
                install: install.deep_view(),
            },
        }
    }
}

/// A step of the installation to `device`, seen as a step of the whole.
pub open spec fn while_installing(device: Seq<char>, step: StepView<InstallStateView, ()>) -> StepView<
    DeployStateView,
    (),
> {
    match step {
        StepView::Next(install, action) => StepView::Next(
            DeployStateView::Installing { device, install },
            action,
        ),
        StepView::Done(done) => StepView::Done(done),
        StepView::Failed(error) => StepView::Failed(error),
    }
}

/// A step of the device lookup, seen as a step of the whole: once the device
/// is known, the installation to it begins.
pub open spec fn after_resolving(platform: Platform, step: StepView<ResolveState, Seq<char>>) -> StepView<
    DeployStateView,
    (),
> {
    match step {
        StepView::Next(lookup, action) => StepView::Next(DeployStateView::Resolving(lookup), action),
        StepView::Done(device) => while_installing(device, install_start(platform)),
        StepView::Failed(error) => StepView::Failed(error),
    }
}

/// The first step of an installation to the running system.
pub open spec fn deploy_start(platform: Platform) -> StepView<DeployStateView, ()> {
    after_resolving(platform, resolve_start(platform))
}

/// The step that follows `event` in `state`: the device is looked up, then
/// the bootloader is installed to it under the system root.
pub open spec fn deploy_advance(platform: Platform, state: DeployStateView, event: EventView) -> StepView<
    DeployStateView,
    (),
> {
    match state {
        DeployStateView::Resolving(lookup) => after_resolving(
            platform,
            resolve_advance(lookup, event),
        ),
        DeployStateView::Installing { device, install } => while_installing(
            device,
            install_advance(platform, system_root(), device, install, event),
        ),
    }
}

fn lift_install(device: String, step: Step<InstallState, ()>) -> (r: Step<DeployState, ()>)
    ensures
        r.deep_view() == while_installing(device@, step.deep_view()),
{
    match step {
        Step::Next(install, action) => Step::Next(DeployState::Installing { device, install }, action),
        Step::Done(done) => Step::Done(done),
        Step::Failed(error) => Step::Failed(error),
    }
}

fn lift_resolve(bios: &Bios, step: Step<ResolveState, String>) -> (r: Step<DeployState, ()>)
    ensures
        r.deep_view() == after_resolving(bios.platform, step.deep_view()),
{
    match step {
        Step::Next(lookup, action) => Step::Next(DeployState::Resolving(lookup), action),
        Step::Done(device) => lift_install(device, bios.run_grub_install()),
        Step::Failed(error) => Step::Failed(error),
    }
}

fn deploy(bios: &Bios) -> (r: Step<DeployState, ()>)
    ensures
        r.deep_view() == deploy_start(bios.platform),
{
    lift_resolve(bios, bios.get_device())
}

fn deploy_next(bios: &Bios, state: DeployState, event: Event) -> (r: Step<DeployState, ()>)
    ensures
        r.deep_view() == deploy_advance(bios.platform, state.deep_view(), event.deep_view()),
{
    match state {
        DeployState::Resolving(lookup) => lift_resolve(bios, bios.get_device_next(lookup, event)),
        DeployState::Installing { device, install } => {
            let step = bios.run_grub_install_next("/", device.as_str(), install, event);
            lift_install(device, step)
        },
    }
}

// ---------------------------------------------------------------------------
// install
// ---------------------------------------------------------------------------

/// Where an `install` stands.
#[derive(Debug, Clone, PartialEq, Eq)]
pub enum InstallOpState {
    /// Reading the update metadata of the component.
    Reading,
    /// Installing the content that `meta` describes.
    Installing { meta: ContentMetadata, install: InstallState },
}

pub enum InstallOpStateView {
    Reading,
    Installing { meta: ContentMetadataView, install: InstallStateView },
}

impl DeepView for InstallOpState {
    type V = InstallOpStateView;

    open spec fn deep_view(&self) -> InstallOpStateView {
        match self {
            InstallOpState::Reading => InstallOpStateView::Reading,
            InstallOpState::Installing { meta, install } => InstallOpStateView::Installing {
                meta: meta.deep_view(),
                install: install.deep_view(),
            },
        }
    }
}

/// A step of the installation of `meta`, seen as a step of `install`: when
/// the installation is complete, its record is made.
pub open spec fn installing(meta: ContentMetadataView, step: StepView<InstallStateView, ()>) -> StepView<
    InstallOpStateView,
    InstalledContentView,
> {
    match step {
        StepView::Next(install, action) => StepView::Next(
            InstallOpStateView::Installing { meta, install },
            action,
        ),
        StepView::Done(_) => StepView::Done(installed(meta)),
        StepView::Failed(error) => StepView::Failed(error),
    }
}

/// The first step of `install`: read the update metadata.
pub open spec fn component_install_start() -> StepView<InstallOpStateView, InstalledContentView> {
    StepView::Next(InstallOpStateView::Reading, ActionView::ReadUpdate)
}

/// The step of `install` that follows `event` in `state`. Without update
/// metadata there is nothing to install, and the operation fails before it
/// has touched anything.
pub open spec fn component_install_advance(
    platform: Platform,
    dest_root: Seq<char>,
    device: Seq<char>,
    state: InstallOpStateView,
    event: EventView,
) -> StepView<InstallOpStateView, InstalledContentView> {
    match state {
        InstallOpStateView::Reading => match event {
            EventView::Update(Some(meta)) => installing(meta, install_start(platform)),
            EventView::Update(None) => StepView::Failed(BootErrorView::MetadataNotFound),
            _ => StepView::Failed(BootErrorView::OutOfTurn),
        },
        InstallOpStateView::Installing { meta, install } => installing(
            meta,
            install_advance(platform, dest_root, device, install, event),
        ),
    }
}

fn lift_installing(meta: ContentMetadata, step: Step<InstallState, ()>) -> (r: Step<
    InstallOpState,
    InstalledContent,
>)
    ensures
        r.deep_view() == installing(meta.deep_view(), step.deep_view()),
{
    match step {
        Step::Next(install, action) => Step::Next(InstallOpState::Installing { meta, install }, action),
        Step::Done(_) => Step::Done(InstalledContent { meta, filetree: None, adopted_from: None }),
        Step::Failed(error) => Step::Failed(error),
    }
}

// ---------------------------------------------------------------------------
// generate_update_metadata
// ---------------------------------------------------------------------------

/// Where a `generate_update_metadata` stands.
#[derive(Debug, Clone, PartialEq, Eq)]
pub enum MetadataState {
    /// Probing for the install tool under the system root.
    Binary,
    /// Asking the package database about the install tool.
    Package,
    /// Storing the metadata.
    Writing(ContentMetadata),
}

pub enum MetadataStateView {
    Binary,
    Package,
    Writing(ContentMetadataView),
}

impl DeepView for MetadataState {
    type V = MetadataStateView;

    open spec fn deep_view(&self) -> MetadataStateView {
        match self {
            MetadataState::Binary => MetadataStateView::Binary,
            MetadataState::Package => MetadataStateView::Package,
            MetadataState::Writing(meta) => MetadataStateView::Writing(meta.deep_view()),
        }
    }
}

/// The first step of `generate_update_metadata`: probe for the install tool
/// under `sysroot`. The tool is there if a file is at its path.
pub open spec fn metadata_start(sysroot: Seq<char>) -> StepView<
    MetadataStateView,
    ContentMetadataView,
> {
    StepView::Next(
        MetadataStateView::Binary,
        ActionView::Probe { path: joined(sysroot, grub_bin()), strict: false },
    )
}

/// The step of `generate_update_metadata` that follows `event` in `state`.
/// The build that owns the install tool describes the content; what the
/// package database answers is stored, and then returned, as it is.
pub open spec fn metadata_advance(sysroot: Seq<char>, state: MetadataStateView, event: EventView) -> StepView<
    MetadataStateView,
    ContentMetadataView,
> {
    match (state, event) {
        (MetadataStateView::Binary, EventView::Probed(found)) => if found == Some(
            EntryKind::File,
        ) {
            StepView::Next(
                MetadataStateView::Package,
                ActionView::PackageInfo { sysroot, path: joined(sysroot, grub_bin()) },
            )
        } else {
            StepView::Failed(BootErrorView::BinaryMissing { path: joined(sysroot, grub_bin()) })
        },
        (MetadataStateView::Package, EventView::Package(meta)) => StepView::Next(
            MetadataStateView::Writing(meta),
            ActionView::WriteUpdate { sysroot, meta },
        ),
        (MetadataStateView::Writing(meta), EventView::Written) => StepView::Done(meta),
        _ => StepView::Failed(BootErrorView::OutOfTurn),
    }
}

// ---------------------------------------------------------------------------
// query_adopt
// ---------------------------------------------------------------------------

/// Where a `query_adopt` stands.
#[derive(Debug, Clone, Copy, PartialEq, Eq, Structural)]
pub enum AdoptQueryState {
    /// Asking how the system was booted.
    Firmware,
    /// Searching for the BIOS boot partition.
    Partition(PartitionState),
    /// Asking which unmanaged installation the system carries.
    Adoptable,
}

impl DeepView for AdoptQueryState {
    type V = AdoptQueryState;

    open spec fn deep_view(&self) -> AdoptQueryState {
        *self
    }
}

/// A step of the search for the BIOS boot partition, seen as a step of
/// `query_adopt`. The search is made on a system that was booted through
/// EFI: where it finds no such partition, this component plays no part in
/// how the system boots, and there is nothing to adopt.
pub open spec fn after_partition(step: StepView<PartitionState, Option<Seq<char>>>) -> StepView<
    AdoptQueryState,
    Option<AdoptableView>,
> {
    match step {
        StepView::Next(search, action) => StepView::Next(AdoptQueryState::Partition(search), action),
        StepView::Done(None) => StepView::Done(None),
        StepView::Done(Some(_)) => StepView::Next(AdoptQueryState::Adoptable, ActionView::AdoptState),
        StepView::Failed(error) => StepView::Failed(error),
    }
}

/// The first step of `query_adopt`.
pub open spec fn query_adopt_start(platform: Platform) -> StepView<
    AdoptQueryState,
    Option<AdoptableView>,
> {
    if platform.checks_firmware_spec() {
        StepView::Next(AdoptQueryState::Firmware, ActionView::FirmwareMode)
    } else {
        StepView::Next(AdoptQueryState::Adoptable, ActionView::AdoptState)
    }
}

/// The step of `query_adopt` that follows `event` in `state`.
pub open spec fn query_adopt_advance(platform: Platform, state: AdoptQueryState, event: EventView) -> StepView<
    AdoptQueryState,
    Option<AdoptableView>,
> {
    match state {
        AdoptQueryState::Firmware => match event {
            EventView::FirmwareMode(efi) => if efi {
                after_partition(partition_start(platform))
            } else {
                StepView::Next(AdoptQueryState::Adoptable, ActionView::AdoptState)
            },
            _ => StepView::Failed(BootErrorView::OutOfTurn),
        },
        AdoptQueryState::Partition(search) => after_partition(partition_advance(search, event)),
        AdoptQueryState::Adoptable => match event {
            EventView::AdoptState(found) => StepView::Done(found),
            _ => StepView::Failed(BootErrorView::OutOfTurn),
        },
    }
}

fn lift_partition(step: Step<PartitionState, Option<String>>) -> (r: Step<
    AdoptQueryState,
    Option<Adoptable>,
>)
    ensures
        r.deep_view() == after_partition(step.deep_view()),
{
    match step {
        Step::Next(search, action) => Step::Next(AdoptQueryState::Partition(search), action),
        Step::Done(None) => Step::Done(None),
        Step::Done(Some(_)) => Step::Next(AdoptQueryState::Adoptable, Action::AdoptState),
        Step::Failed(error) => Step::Failed(error),
    }
}

// ---------------------------------------------------------------------------
// adopt_update
// ---------------------------------------------------------------------------

/// Where an `adopt_update` stands.
#[derive(Debug, Clone, PartialEq, Eq)]
pub enum AdoptState {
    /// Finding out whether there is anything to adopt.
    Querying(AdoptQueryState),
    /// Installing over the installation that was found.
    Deploying { found: Adoptable, deploy: DeployState },
}

pub enum AdoptStateView {
    Querying(AdoptQueryState),
    Deploying { found: AdoptableView, deploy: DeployStateView },
}

impl DeepView for AdoptState {
    type V = AdoptStateView;

    open spec fn deep_view(&self) -> AdoptStateView {
        match self {
            AdoptState::Querying(query) => AdoptStateView::Querying(*query),
            AdoptState::Deploying { found, deploy } => AdoptStateView::Deploying {
                found: found.deep_view(),
                deploy: deploy.deep_view(),
            },
        }
    }
}

/// A step of the installation over `found`, seen as a step of `adopt_update`:
/// when the installation is complete, the record names `update` as installed
/// and the version of `found` as what it was adopted from.
pub open spec fn adopting(
    update: ContentMetadataView,
    found: AdoptableView,
    step: StepView<DeployStateView, ()>,
) -> StepView<AdoptStateView, InstalledContentView> {
    match step {
        StepView::Next(deploy, action) => StepView::Next(
            AdoptStateView::Deploying { found, deploy },
            action,
        ),
        StepView::Done(_) => StepView::Done(adopted(update, found.version)),
        StepView::Failed(error) => StepView::Failed(error),
    }
}

/// A step of `query_adopt`, seen as a step of `adopt_update`: where nothing
/// adoptable is found the adoption fails, and otherwise the installation
/// begins.
pub open spec fn after_query(
    platform: Platform,
    update: ContentMetadataView,
    step: StepView<AdoptQueryState, Option<AdoptableView>>,
) -> StepView<AdoptStateView, InstalledContentView> {
    match step {
        StepView::Next(query, action) => StepView::Next(AdoptStateView::Querying(query), action),
        StepView::Done(None) => StepView::Failed(BootErrorView::AdoptionNotFound),
        StepView::Done(Some(found)) => adopting(update, found, deploy_start(platform)),
        StepView::Failed(error) => StepView::Failed(error),
    }
}

/// The first step of `adopt_update`.
pub open spec fn adopt_start(platform: Platform, update: ContentMetadataView) -> StepView<
    AdoptStateView,
    InstalledContentView,
> {
    after_query(platform, update, query_adopt_start(platform))
}

/// The step of `adopt_update` that follows `event` in `state`.
pub open spec fn adopt_advance(
    platform: Platform,
    update: ContentMetadataView,
    state: AdoptStateView,
    event: EventView,
) -> StepView<AdoptStateView, InstalledContentView> {
    match state {
        AdoptStateView::Querying(query) => after_query(
            platform,
            update,
            query_adopt_advance(platform, query, event),
        ),
        AdoptStateView::Deploying { found, deploy } => adopting(
            update,
            found,
            deploy_advance(platform, deploy, event),
        ),
    }
}

fn lift_adopting(update: &ContentMetadata, found: Adoptable, step: Step<DeployState, ()>) -> (r: Step<
    AdoptState,
    InstalledContent,
>)
    ensures
        r.deep_view() == adopting(update.deep_view(), found.deep_view(), step.deep_view()),
{
    match step {
        Step::Next(deploy, action) => Step::Next(AdoptState::Deploying { found, deploy }, action),
        Step::Done(_) => Step::Done(
            InstalledContent {
                meta: update.duplicate(),
                filetree: None,
                adopted_from: Some(found.version),
            },
        ),
        Step::Failed(error) => Step::Failed(error),
    }
}

fn lift_query(bios: &Bios, update: &ContentMetadata, step: Step<AdoptQueryState, Option<Adoptable>>) -> (r:
    Step<AdoptState, InstalledContent>)
    ensures
        r.deep_view() == after_query(bios.platform, update.deep_view(), step.deep_view()),
{
    match step {
        Step::Next(query, action) => Step::Next(AdoptState::Querying(query), action),
        Step::Done(None) => Step::Failed(BootError::AdoptionNotFound),
        Step::Done(Some(found)) => lift_adopting(update, found, deploy(bios)),
        Step::Failed(error) => Step::Failed(error),
    }
}

// ---------------------------------------------------------------------------
// query_update and run_update
// ---------------------------------------------------------------------------

/// Where a `query_update` stands: it has one step only.
#[derive(Debug, Clone, Copy, PartialEq, Eq, Structural)]
pub enum UpdateQueryState {
    /// Reading the update metadata of the component.
    Reading,
}

impl DeepView for UpdateQueryState {
    type V = UpdateQueryState;

    open spec fn deep_view(&self) -> UpdateQueryState {
        *self
    }
}

/// The step of `query_update` that follows `event`: the metadata that was
/// read, or `None` where there is none.
pub open spec fn query_update_advance(event: EventView) -> StepView<
    UpdateQueryState,
    Option<ContentMetadataView>,
> {
    match event {
        EventView::Update(found) => StepView::Done(found),
        _ => StepView::Failed(BootErrorView::OutOfTurn),
    }
}

/// Where a `run_update` stands.
#[derive(Debug, Clone, PartialEq, Eq)]
pub enum UpdateState {
    /// Reading the update metadata of the component.
    Reading,
    /// Installing the content that `meta` describes.
    Deploying { meta: ContentMetadata, deploy: DeployState },
}

pub enum UpdateStateView {
    Reading,
    Deploying { meta: ContentMetadataView, deploy: DeployStateView },
}

impl DeepView for UpdateState {
    type V = UpdateStateView;

    open spec fn deep_view(&self) -> UpdateStateView {
        match self {
            UpdateState::Reading => UpdateStateView::Reading,
            UpdateState::Deploying { meta, deploy } => UpdateStateView::Deploying {
                meta: meta.deep_view(),
                deploy: deploy.deep_view(),
            },
        }
    }
}

/// A step of the installation of `meta`, seen as a step of `run_update`.
pub open spec fn updating(meta: ContentMetadataView, step: StepView<DeployStateView, ()>) -> StepView<
    UpdateStateView,
    InstalledContentView,
> {
    match step {
        StepView::Next(deploy, action) => StepView::Next(
            UpdateStateView::Deploying { meta, deploy },
            action,
        ),
        StepView::Done(_) => StepView::Done(installed(meta)),
        StepView::Failed(error) => StepView::Failed(error),
    }
}

/// Whether `event` may be reported in `state`: a `run_update` is made only
/// where there is an update.
pub open spec fn update_available(state: UpdateStateView, event: EventView) -> bool {
    !(state is Reading && event == EventView::Update(None))
}

/// The step of `run_update` that follows `event` in `state`.
pub open spec fn update_advance(platform: Platform, state: UpdateStateView, event: EventView) -> StepView<
    UpdateStateView,
    InstalledContentView,
> {
    match state {
        UpdateStateView::Reading => match event {
            EventView::Update(Some(meta)) => updating(meta, deploy_start(platform)),
            _ => StepView::Failed(BootErrorView::OutOfTurn),
        },
        UpdateStateView::Deploying { meta, deploy } => updating(
            meta,
            deploy_advance(platform, deploy, event),
        ),
    }
}

fn lift_updating(meta: ContentMetadata, step: Step<DeployState, ()>) -> (r: Step<
    UpdateState,
    InstalledContent,
>)
    ensures
        r.deep_view() == updating(meta.deep_view(), step.deep_view()),
{
    match step {
        Step::Next(deploy, action) => Step::Next(UpdateState::Deploying { meta, deploy }, action),
        Step::Done(_) => Step::Done(InstalledContent { meta, filetree: None, adopted_from: None }),
        Step::Failed(error) => Step::Failed(error),
    }
}

// ---------------------------------------------------------------------------
// What holds of the operations
// ---------------------------------------------------------------------------

/// The step function of a `query_adopt`.
pub open spec fn query_adopt_machine(platform: Platform) -> spec_fn(
    AdoptQueryState,
    EventView,
) -> StepView<AdoptQueryState, Option<AdoptableView>> {
    |state: AdoptQueryState, event: EventView| query_adopt_advance(platform, state, event)
}

/// The step at which a `query_adopt` stands after the driver has reported
/// `events`.
pub open spec fn query_adopt_run(platform: Platform, events: Seq<EventView>) -> StepView<
    AdoptQueryState,
    Option<AdoptableView>,
> {
    feed(query_adopt_machine(platform), query_adopt_start(platform), events)
}

/// The actions that a `query_adopt` asked for while the driver reported
/// `events`.
pub open spec fn query_adopt_asked(platform: Platform, events: Seq<EventView>) -> Seq<ActionView> {
    asked(query_adopt_machine(platform), query_adopt_start(platform), events)
}

/// `query_adopt` only looks: whatever is reported to it, it never asks for an
/// action that changes the device, the boot directory or the stored metadata.
pub proof fn lemma_query_adopt_is_harmless(platform: Platform, events: Seq<EventView>)
    ensures
        query_adopt_run(platform, events) matches StepView::Next(_, action)
            ==> !action.is_destructive(),
        forall|k: int|
            0 <= k < query_adopt_asked(platform, events).len() ==> !(
            #[trigger] query_adopt_asked(platform, events)[k]).is_destructive(),
    decreases events.len(),
{
    if events.len() > 0 {
        let before = events.drop_last();
        lemma_query_adopt_is_harmless(platform, before);
        lemma_feed_last(query_adopt_machine(platform), query_adopt_start(platform), events);
        let earlier = query_adopt_asked(platform, before);
        let all = query_adopt_asked(platform, events);
        assert forall|k: int| 0 <= k < all.len() implies !(#[trigger] all[k]).is_destructive() by {
            if k < earlier.len() {
                assert(all[k] == earlier[k]);
            }
        }
    }
}

/// The partition is searched for only on a platform that checks how the
/// system was booted, and only after the answer that it was booted through
/// EFI.
pub proof fn lemma_partition_search_means_efi(platform: Platform, events: Seq<EventView>)
    requires
        query_adopt_run(platform, events) matches StepView::Next(state, _) && state is Partition,
    ensures
        platform.checks_firmware_spec(),
        events.len() > 0,
        events[0] == EventView::FirmwareMode(true),
    decreases events.len(),
{
    let before = events.drop_last();
    if events.len() > 0 {
        lemma_feed_last(query_adopt_machine(platform), query_adopt_start(platform), events);
    }
    if events.len() > 1 {
        if query_adopt_run(platform, before) matches StepView::Next(state, _) && state
            is Partition {
            lemma_partition_search_means_efi(platform, before);
        } else {
            lemma_firmware_is_asked_first(platform, before);
        }
    } else if events.len() == 1 {
        assert(before.len() == 0);
    }
}

/// Only the first step of a `query_adopt` asks how the system was booted.
proof fn lemma_firmware_is_asked_first(platform: Platform, events: Seq<EventView>)
    requires
        events.len() > 0,
    ensures
        !(query_adopt_run(platform, events) matches StepView::Next(state, _) && state
            is Firmware),
    decreases events.len(),
{
    lemma_feed_last(query_adopt_machine(platform), query_adopt_start(platform), events);
    if events.len() > 1 {
        lemma_firmware_is_asked_first(platform, events.drop_last());
    }
}

/// On a system that was booted through EFI and whose boot device has no BIOS
/// boot partition, `query_adopt` ends with `None`: it does not fail, and it
/// does not go on to ask what could be adopted.
pub proof fn lemma_adoption_skipped_without_partition(
    platform: Platform,
    events: Seq<EventView>,
    listing: Seq<crate::partition::BlockDeviceView>,
)
    requires
        events.len() > 0,
        query_adopt_run(platform, events.drop_last()) matches StepView::Next(state, _) && state
            == AdoptQueryState::Partition(PartitionState::Listing),
        events.last() matches EventView::Ran(output) && listing_result(output) == Ok::<
            Seq<crate::partition::BlockDeviceView>,
            crate::model::Fault,
        >(listing),
        first_partition(listing, "gpt"@, "BIOS boot"@) is None,
    ensures
        events[0] == EventView::FirmwareMode(true),
        query_adopt_run(platform, events) == StepView::<
            AdoptQueryState,
            Option<AdoptableView>,
        >::Done(None),
{
    lemma_partition_search_means_efi(platform, events.drop_last());
    lemma_feed_last(query_adopt_machine(platform), query_adopt_start(platform), events);
    assert(events.drop_last()[0] == events[0]);
}

/// A record made by `install` or `run_update` carries no mark of adoption; a
/// record made by `adopt_update` carries the version of what was adopted. No
/// record of this component lists files.
pub proof fn lemma_adoption_is_marked(
    platform: Platform,
    dest_root: Seq<char>,
    device: Seq<char>,
    update: ContentMetadataView,
    install: InstallOpStateView,
    run: UpdateStateView,
    adopt: AdoptStateView,
    event: EventView,
)
    ensures
        component_install_advance(platform, dest_root, device, install, event) matches StepView::Done(
            record,
        ) ==> record.adopted_from is None && record.filetree is None,
        update_advance(platform, run, event) matches StepView::Done(record)
            ==> record.adopted_from is None && record.filetree is None,
        adopt_advance(platform, update, adopt, event) matches StepView::Done(record) ==> {
            &&& adopt matches AdoptStateView::Deploying { found, .. }
            &&& record.adopted_from == Some(found.version)
            &&& record.filetree is None
            &&& record.meta == update
        },
{
}

/// The record of an installation does not depend on where it was installed:
/// the same metadata gives the same record for any destination and device.
pub proof fn lemma_record_names_no_device(
    platform: Platform,
    dest_root: Seq<char>,
    device: Seq<char>,
    other_root: Seq<char>,
    other_device: Seq<char>,
    state: InstallOpStateView,
    event: EventView,
)
    requires
        component_install_advance(platform, dest_root, device, state, event) is Done,
        component_install_advance(platform, other_root, other_device, state, event) is Done,
    ensures
        component_install_advance(platform, dest_root, device, state, event)
            == component_install_advance(platform, other_root, other_device, state, event),
        state matches InstallOpStateView::Installing { meta, .. } && component_install_advance(
            platform,
            dest_root,
            device,
            state,
            event,
        ) == StepView::<InstallOpStateView, InstalledContentView>::Done(installed(meta)),
{
}

/// Adoption fails with `AdoptionNotFound` as soon as `query_adopt` has found
/// nothing to adopt: no device is looked up and nothing is installed.
pub proof fn lemma_nothing_to_adopt(
    platform: Platform,
    update: ContentMetadataView,
    query: AdoptQueryState,
    event: EventView,
)
    requires
        query_adopt_advance(platform, query, event) == StepView::<
            AdoptQueryState,
            Option<AdoptableView>,
        >::Done(None),
    ensures
        adopt_advance(platform, update, AdoptStateView::Querying(query), event) == StepView::<
            AdoptStateView,
            InstalledContentView,
        >::Failed(BootErrorView::AdoptionNotFound),
{
}

// ---------------------------------------------------------------------------
// The operations
// ---------------------------------------------------------------------------

impl Bios {
    /// The name of the component.
    pub fn name(&self) -> (r: &'static str)
        ensures
            r@ == "BIOS"@,
    {
        "BIOS"
    }

    /// Starts an installation of the component from its update metadata.
    pub fn install(&self) -> (r: Step<InstallOpState, InstalledContent>)
        ensures
            r.deep_view() == component_install_start(),
    {
        Step::Next(InstallOpState::Reading, Action::ReadUpdate)
    }

    /// Takes `install` to `device`, under `dest_root`, one step further.
    pub fn install_next(
        &self,
        dest_root: &str,
        device: &str,
        state: InstallOpState,
        event: Event,
    ) -> (r: Step<InstallOpState, InstalledContent>)
        ensures
            r.deep_view() == component_install_advance(
                self.platform,
                dest_root@,
                device@,
                state.deep_view(),
                event.deep_view(),
            ),
    {
        match state {
            InstallOpState::Reading => match event {
                Event::Update(Some(meta)) => lift_installing(meta, self.run_grub_install()),
                Event::Update(None) => Step::Failed(BootError::MetadataNotFound),
                _ => Step::Failed(BootError::OutOfTurn),
            },
            InstallOpState::Installing { meta, install } => {
                let step = self.run_grub_install_next(dest_root, device, install, event);
                lift_installing(meta, step)
            },
        }
    }

    /// Starts the description of the content that an update from `sysroot`
    /// would install.
    pub fn generate_update_metadata(&self, sysroot: &str) -> (r: Step<
        MetadataState,
        ContentMetadata,
    >)
        ensures
            r.deep_view() == metadata_start(sysroot@),
    {
        Step::Next(
            MetadataState::Binary,
            Action::Probe { path: install_binary_under(sysroot), strict: false },
        )
    }

    /// Takes `generate_update_metadata` one step further.
    pub fn generate_update_metadata_next(
        &self,
        sysroot: &str,
        state: MetadataState,
        event: Event,
    ) -> (r: Step<MetadataState, ContentMetadata>)
        ensures
            r.deep_view() == metadata_advance(sysroot@, state.deep_view(), event.deep_view()),
    {
        match (state, event) {
            (MetadataState::Binary, Event::Probed(found)) => {
                if is_kind(&found, EntryKind::File) {
                    Step::Next(
                        MetadataState::Package,
                        Action::PackageInfo {
                            sysroot: String::from_str(sysroot),
                            path: install_binary_under(sysroot),
                        },
                    )
                } else {
                    Step::Failed(BootError::BinaryMissing { path: install_binary_under(sysroot) })
                }
            },
            (MetadataState::Package, Event::Package(meta)) => {
                let copy = meta.duplicate();
                Step::Next(
                    MetadataState::Writing(meta),
                    Action::WriteUpdate { sysroot: String::from_str(sysroot), meta: copy },
                )
            },
            (MetadataState::Writing(meta), Event::Written) => Step::Done(meta),
            _ => Step::Failed(BootError::OutOfTurn),
        }
    }

    /// Starts the search for an unmanaged installation that can be adopted.
    pub fn query_adopt(&self) -> (r: Step<AdoptQueryState, Option<Adoptable>>)
        ensures
            r.deep_view() == query_adopt_start(self.platform),
    {
        if self.platform.checks_firmware() {
            Step::Next(AdoptQueryState::Firmware, Action::FirmwareMode)
        } else {
            Step::Next(AdoptQueryState::Adoptable, Action::AdoptState)
        }
    }

    /// Takes `query_adopt` one step further.
    pub fn query_adopt_next(&self, state: AdoptQueryState, event: Event) -> (r: Step<
        AdoptQueryState,
        Option<Adoptable>,
    >)
        ensures
            r.deep_view() == query_adopt_advance(self.platform, state, event.deep_view()),
    {
        match state {
            AdoptQueryState::Firmware => match event {
                Event::FirmwareMode(efi) => {
                    if efi {
                        lift_partition(self.get_bios_boot_partition())
                    } else {
                        Step::Next(AdoptQueryState::Adoptable, Action::AdoptState)
                    }
                },
                _ => Step::Failed(BootError::OutOfTurn),
            },
            AdoptQueryState::Partition(search) => lift_partition(
                self.get_bios_boot_partition_next(search, event),
            ),
            AdoptQueryState::Adoptable => match event {
                Event::AdoptState(found) => Step::Done(found),
                _ => Step::Failed(BootError::OutOfTurn),
            },
        }
    }

    /// Starts the adoption of an unmanaged installation, which installs the
    /// content that `update` describes over it.
    pub fn adopt_update(&self, update: &ContentMetadata) -> (r: Step<AdoptState, InstalledContent>)
        ensures
            r.deep_view() == adopt_start(self.platform, update.deep_view()),
    {
        lift_query(self, update, self.query_adopt())
    }

    /// Takes `adopt_update` one step further.
    pub fn adopt_update_next(&self, update: &ContentMetadata, state: AdoptState, event: Event) -> (r:
        Step<AdoptState, InstalledContent>)
        ensures
            r.deep_view() == adopt_advance(
                self.platform,
                update.deep_view(),
                state.deep_view(),
                event.deep_view(),
            ),
    {
        match state {
            AdoptState::Querying(query) => lift_query(
                self,
                update,
                self.query_adopt_next(query, event),
            ),
            AdoptState::Deploying { found, deploy } => {
                let step = deploy_next(self, deploy, event);
                lift_adopting(update, found, step)
            },
        }
    }

    /// Starts the search for an update: read the update metadata.
    pub fn query_update(&self) -> (r: Step<UpdateQueryState, Option<ContentMetadata>>)
        ensures
            r.deep_view() == StepView::<UpdateQueryState, Option<ContentMetadataView>>::Next(
                UpdateQueryState::Reading,
                ActionView::ReadUpdate,
            ),
    {
        Step::Next(UpdateQueryState::Reading, Action::ReadUpdate)
    }

    /// Ends `query_update` with what was read. That there is no update is no
    /// failure: the answer is then `None`.
    pub fn query_update_next(&self, state: UpdateQueryState, event: Event) -> (r: Step<
        UpdateQueryState,
        Option<ContentMetadata>,
    >)
        ensures
            r.deep_view() == query_update_advance(event.deep_view()),
    {
        match event {
            Event::Update(found) => Step::Done(found),
            _ => Step::Failed(BootError::OutOfTurn),
        }
    }

    /// Starts an update: read the update metadata.
    pub fn run_update(&self) -> (r: Step<UpdateState, InstalledContent>)
        ensures
            r.deep_view() == StepView::<UpdateStateView, InstalledContentView>::Next(
                UpdateStateView::Reading,
                ActionView::ReadUpdate,
            ),
    {
        Step::Next(UpdateState::Reading, Action::ReadUpdate)
    }

    /// Takes `run_update` one step further. An update is run only where
    /// `query_update` has found one: the answer to the first step must hold
    /// the metadata.
    pub fn run_update_next(&self, state: UpdateState, event: Event) -> (r: Step<
        UpdateState,
        InstalledContent,
    >)
        requires
            update_available(state.deep_view(), event.deep_view()),
        ensures
            r.deep_view() == update_advance(self.platform, state.deep_view(), event.deep_view()),
    {
        match state {
            UpdateState::Reading => match event {
                Event::Update(Some(meta)) => lift_updating(meta, deploy(self)),
                _ => Step::Failed(BootError::OutOfTurn),
            },
            UpdateState::Deploying { meta, deploy } => {
                let step = deploy_next(self, deploy, event);
                lift_updating(meta, step)
            },
        }
    }

    /// Validates an installation. There is no manifest of files to compare
    /// the installation with, so the verdict is always to skip.
    pub fn validate(&self, current: &InstalledContent) -> (r: ValidationResult)
        ensures
            r is Skip,
    {
        ValidationResult::Skip
    }

    /// The EFI vendor of the component: it has none.
    pub fn get_efi_vendor(&self) -> (r: Option<String>)
        ensures
            r is None,
    {
        None
    }
}

} // verus!
