//! The partition layout of a device: reading the structured listing of its
//! block devices and searching it for a partition of a given type.

use vstd::prelude::*;
use vstd::utf8::{decode_utf8, valid_utf8};
use crate::device::{resolve_advance, resolve_start, ResolveState};
use crate::json::{json_document, json_elements, json_member, json_null, json_string};
use crate::model::{BootError, BootErrorView, Fault};
use crate::plan::{
    push_text, Action, ActionView, CommandLine, CommandLineView, CommandOutput, CommandOutputView,
    Event, EventView, Step, StepView,
};
use crate::platform::{Bios, Platform};
use crate::text::{decode_text, same_text};

verus! {

/// One entry of a block-device listing. It is read afresh on every query and
/// never kept.
#[derive(Debug, Clone, PartialEq, Eq)]
pub struct BlockDevice {
    /// The device node.
    pub path: String,
    /// The type of the partition table that the entry belongs to.
    pub pttype: Option<String>,
    /// The readable name of the partition's type.
    pub parttypename: Option<String>,
}

pub struct BlockDeviceView {
    pub path: Seq<char>,
    pub pttype: Option<Seq<char>>,
    pub parttypename: Option<Seq<char>>,
}

impl DeepView for BlockDevice {
    type V = BlockDeviceView;

    open spec fn deep_view(&self) -> BlockDeviceView {
        BlockDeviceView {
            path: self.path@,
            pttype: self.pttype.deep_view(),
            parttypename: self.parttypename.deep_view(),
        }
    }
}

/// A block-device listing, in the order in which the entries were listed.
#[derive(Debug, Clone, PartialEq, Eq)]
pub struct Devices {
    pub blockdevices: Vec<BlockDevice>,
}

impl DeepView for Devices {
    type V = Seq<BlockDeviceView>;

    open spec fn deep_view(&self) -> Seq<BlockDeviceView> {
        self.blockdevices.deep_view()
    }
}

/// An optional text member of a listing entry: absent where the entry has no
/// such member or holds `null` there. The outer `None` says that the member
/// holds something that is neither `null` nor a string.
pub open spec fn optional_text(entry: serde_json::Value, key: Seq<char>) -> Option<
    Option<Seq<char>>,
> {
    match json_member(entry, key) {
        None => Some(None),
        Some(m) => if json_null(m) {
            Some(None)
        } else {
            match json_string(m) {
                Some(s) => Some(Some(s)),
                None => None,
            }
        },
    }
}

/// The listing entry that a JSON value describes, if it describes one: an
/// object with a string under `path`, and with `pttype` and `parttypename`
/// each a string, `null` or left out. Other members are ignored.
pub open spec fn entry_of(entry: serde_json::Value) -> Option<BlockDeviceView> {
    match json_member(entry, "path"@) {
        Some(p) => match (
            json_string(p),
            optional_text(entry, "pttype"@),
            optional_text(entry, "parttypename"@),
        ) {
            (Some(path), Some(pttype), Some(parttypename)) => Some(
                BlockDeviceView { path, pttype, parttypename },
            ),
            _ => None,
        },
        None => None,
    }
}

/// The entries that a sequence of JSON values describes, in order, if each of
/// them describes one.
pub open spec fn entries_of(items: Seq<serde_json::Value>) -> Option<Seq<BlockDeviceView>> {
    if forall|i: int| 0 <= i < items.len() ==> (#[trigger] entry_of(items[i])) is Some {
        Some(Seq::new(items.len(), |i: int| entry_of(items[i]).unwrap()))
    } else {
        None
    }
}

/// The listing that a JSON document holds: the entries of the array under
/// `blockdevices`.
pub open spec fn listing_of(doc: serde_json::Value) -> Option<Seq<BlockDeviceView>> {
    match json_member(doc, "blockdevices"@) {
        Some(list) => match json_elements(list) {
            Some(items) => entries_of(items),
            None => None,
        },
        None => None,
    }
}

/// Whether a JSON value has all that a listing entry needs: a string under
/// `path`, and under `pttype` and `parttypename` a string, `null` or nothing.
pub open spec fn well_formed_entry(entry: serde_json::Value) -> bool {
    &&& json_member(entry, "path"@) matches Some(p) && json_string(p) is Some
    &&& json_member(entry, "pttype"@) matches Some(m) ==> json_null(m) || json_string(m) is Some
    &&& json_member(entry, "parttypename"@) matches Some(m) ==> json_null(m) || json_string(m)
        is Some
}

/// Every well-formed listing is read, entry by entry and in order: the path of
/// each entry is recovered, and an optional member that is left out or `null`
/// reads as absent. Further members of an entry change nothing.
pub proof fn lemma_listing_recovers_entries(doc: serde_json::Value, items: Seq<serde_json::Value>)
    requires
        json_member(doc, "blockdevices"@) matches Some(list) && json_elements(list) == Some(items),
        forall|i: int| 0 <= i < items.len() ==> well_formed_entry(#[trigger] items[i]),
    ensures
        listing_of(doc) matches Some(listing) && {
            &&& listing.len() == items.len()
            &&& forall|i: int|
                #![trigger listing[i]]
                0 <= i < items.len() ==> {
                    &&& Some(listing[i].path) == json_string(
                        json_member(items[i], "path"@).unwrap(),
                    )
                    &&& listing[i].pttype == optional_text(items[i], "pttype"@).unwrap()
                    &&& listing[i].parttypename == optional_text(
                        items[i],
                        "parttypename"@,
                    ).unwrap()
                    &&& json_member(items[i], "pttype"@) is None ==> listing[i].pttype is None
                    &&& json_member(items[i], "parttypename"@) is None
                        ==> listing[i].parttypename is None
                }
        },
{
    assert forall|i: int| 0 <= i < items.len() implies (#[trigger] entry_of(items[i])) is Some by {
        assert(well_formed_entry(items[i]));
    }
}

/// A listing is read only from a document whose entries are all well formed.
pub proof fn lemma_listing_needs_well_formed_entries(doc: serde_json::Value)
    requires
        listing_of(doc) is Some,
    ensures
        json_member(doc, "blockdevices"@) matches Some(list) && json_elements(list) matches Some(
            items,
        ) && forall|i: int| 0 <= i < items.len() ==> well_formed_entry(#[trigger] items[i]),
{
    let list = json_member(doc, "blockdevices"@).unwrap();
    let items = json_elements(list).unwrap();
    assert forall|i: int| 0 <= i < items.len() implies well_formed_entry(#[trigger] items[i]) by {
        assert(entry_of(items[i]) is Some);
    }
}

fn read_optional(entry: &serde_json::Value, key: &str) -> (r: Option<Option<String>>)
    ensures
        r.deep_view() == optional_text(*entry, key@),
{
    match crate::json::member(entry, key) {
        None => Some(None),
        Some(m) => {
            if crate::json::is_null(m) {
                Some(None)
            } else {
                match crate::json::string(m) {
                    Some(s) => Some(Some(String::from_str(s))),
                    None => None,
                }
            }
        },
    }
}

/// Reads one entry of a listing.
pub fn entry_from_json(entry: &serde_json::Value) -> (r: Option<BlockDevice>)
    ensures
        r.deep_view() == entry_of(*entry),
{
    let p = match crate::json::member(entry, "path") {
        Some(p) => p,
        None => { return None; },
    };
    let path = match crate::json::string(p) {
        Some(s) => String::from_str(s),
        None => { return None; },
    };
    let pttype = match read_optional(entry, "pttype") {
        Some(t) => t,
        None => { return None; },
    };
    let parttypename = match read_optional(entry, "parttypename") {
        Some(t) => t,
        None => { return None; },
    };
    Some(BlockDevice { path, pttype, parttypename })
}

/// Reads the listing that a JSON document holds.
pub fn listing_from_json(doc: &serde_json::Value) -> (r: Option<Devices>)
    ensures
        r.deep_view() == listing_of(*doc),
{
    let list = match crate::json::member(doc, "blockdevices") {
        Some(list) => list,
        None => { return None; },
    };
    let items = match crate::json::elements(list) {
        Some(items) => items,
        None => { return None; },
    };
    let mut out: Vec<BlockDevice> = Vec::new();
    let mut i: usize = 0;
    while i < items.len()
        invariant
            0 <= i <= items.len(),
            out.len() == i,
            listing_of(*doc) == entries_of(items@),
            forall|k: int| 0 <= k < i ==> (#[trigger] entry_of(items@[k])) == Some(out@[k].deep_view()),
        decreases items.len() - i,
    {
        match entry_from_json(&items[i]) {
            Some(device) => {
                out.push(device);
            },
            None => {
                assert(entry_of(items@[i as int]) is None);
                assert(entries_of(items@) is None);
                return None;
            },
        }
        i = i + 1;
    }
    let devices = Devices { blockdevices: out };
    assert(devices.deep_view() =~= entries_of(items@).unwrap());
    Some(devices)
}

/// Reads a listing from JSON text. Text that is no JSON, or JSON that holds
/// no listing, is malformed.
pub fn parse_listing(text: &str) -> (r: Result<Devices, Fault>)
    ensures
        match json_document(text@) {
            Some(doc) => match listing_of(doc) {
                Some(listing) => r matches Ok(devices) && devices.deep_view() == listing,
                None => r matches Err(Fault::Malformed),
            },
            None => r matches Err(Fault::Malformed),
        },
{
    match crate::json::parse_document(text) {
        Ok(doc) => match listing_from_json(&doc) {
            Some(devices) => Ok(devices),
            None => Err(Fault::Malformed),
        },
        Err(_) => Err(Fault::Malformed),
    }
}

/// Whether an entry is a partition of the given type on a table of the given
/// type.
pub open spec fn has_type(entry: BlockDeviceView, table: Seq<char>, part_type: Seq<char>) -> bool {
    entry.pttype == Some(table) && entry.parttypename == Some(part_type)
}

/// The index of the first entry at or after `from` that has the given type,
/// or the length of the listing if there is none.
pub open spec fn first_index(
    listing: Seq<BlockDeviceView>,
    table: Seq<char>,
    part_type: Seq<char>,
    from: int,
) -> int
    decreases listing.len() - from,
{
    if 0 <= from < listing.len() && !has_type(listing[from], table, part_type) {
        first_index(listing, table, part_type, from + 1)
    } else {
        from
    }
}

/// The path of the first entry of the given type, if there is one.
pub open spec fn first_partition(
    listing: Seq<BlockDeviceView>,
    table: Seq<char>,
    part_type: Seq<char>,
) -> Option<Seq<char>> {
    let i = first_index(listing, table, part_type, 0);
    if i < listing.len() {
        Some(listing[i].path)
    } else {
        None
    }
}

/// Where the search stops: no entry before has the type, and the entry
/// there, if any, has it.
proof fn lemma_first_index(
    listing: Seq<BlockDeviceView>,
    table: Seq<char>,
    part_type: Seq<char>,
    from: int,
)
    requires
        0 <= from <= listing.len(),
    ensures
        from <= first_index(listing, table, part_type, from) <= listing.len(),
        forall|k: int|
            from <= k < first_index(listing, table, part_type, from) ==> !has_type(
                #[trigger] listing[k],
                table,
                part_type,
            ),
        first_index(listing, table, part_type, from) < listing.len() ==> has_type(
            listing[first_index(listing, table, part_type, from)],
            table,
            part_type,
        ),
    decreases listing.len() - from,
{
    if from < listing.len() && !has_type(listing[from], table, part_type) {
        lemma_first_index(listing, table, part_type, from + 1);
    }
}

/// The search finds nothing exactly when no entry has the type, and otherwise
/// gives the path of the earliest entry that has it.
pub proof fn lemma_first_partition(
    listing: Seq<BlockDeviceView>,
    table: Seq<char>,
    part_type: Seq<char>,
)
    ensures
        first_partition(listing, table, part_type) is None <==> (forall|k: int|
            0 <= k < listing.len() ==> !has_type(#[trigger] listing[k], table, part_type)),
        first_partition(listing, table, part_type) matches Some(path) ==> exists|i: int|
            {
                &&& 0 <= i < listing.len()
                &&& has_type(#[trigger] listing[i], table, part_type)
                &&& listing[i].path == path
                &&& forall|k: int| 0 <= k < i ==> !has_type(#[trigger] listing[k], table, part_type)
            },
{
    lemma_first_index(listing, table, part_type, 0);
}

fn text_is(value: &Option<String>, wanted: &str) -> (r: bool)
    ensures
        r == (value.deep_view() == Some(wanted@)),
{
    match value {
        Some(s) => same_text(s.as_str(), wanted),
        None => false,
    }
}

/// Searches a listing for the first partition whose table type and type name
/// both match. That none matches is no error: the answer is then `None`.
pub fn find_partition_by_type(devices: &Devices, table: &str, part_type: &str) -> (r: Option<
    String,
>)
    ensures
        r.deep_view() == first_partition(devices.deep_view(), table@, part_type@),
{
    let ghost listing = devices.deep_view();
    let mut i: usize = 0;
    while i < devices.blockdevices.len()
        invariant
            listing == devices.deep_view(),
            0 <= i <= devices.blockdevices.len(),
            first_index(listing, table@, part_type@, 0) == first_index(
                listing,
                table@,
                part_type@,
                i as int,
            ),
        decreases devices.blockdevices.len() - i,
    {
        let entry = &devices.blockdevices[i];
        assert(listing[i as int] == entry.deep_view());
        if text_is(&entry.parttypename, part_type) && text_is(&entry.pttype, table) {
            return Some(entry.path.clone());
        }
        i = i + 1;
    }
    None
}

/// The query that lists `device` and its partitions as JSON.
pub open spec fn listing_query(device: Seq<char>) -> CommandLineView {
    CommandLineView {
        program: "lsblk"@,
        args: seq!["--json"@, "--output"@, "PATH,PTTYPE,PARTTYPENAME"@, device],
    }
}

fn build_listing_query(device: &str) -> (r: CommandLine)
    ensures
        r.deep_view() == listing_query(device@),
{
    let mut args: Vec<String> = Vec::new();
    push_text(&mut args, "--json");
    push_text(&mut args, "--output");
    push_text(&mut args, "PATH,PTTYPE,PARTTYPENAME");
    push_text(&mut args, device);
    assert(args.deep_view() =~= listing_query(device@).args);
    CommandLine { program: String::from_str("lsblk"), args }
}

/// The listing that the listing tool answered with.
pub open spec fn listing_result(output: CommandOutputView) -> Result<Seq<BlockDeviceView>, Fault> {
    if !output.success {
        Err(Fault::ToolFailed)
    } else if !valid_utf8(output.stdout) {
        Err(Fault::NotText)
    } else {
        match json_document(decode_utf8(output.stdout)) {
            Some(doc) => match listing_of(doc) {
                Some(listing) => Ok(listing),
                None => Err(Fault::Malformed),
            },
            None => Err(Fault::Malformed),
        }
    }
}

/// Reads the answer of the listing tool.
pub fn read_listing(output: CommandOutput) -> (r: Result<Devices, Fault>)
    ensures
        match listing_result(output.deep_view()) {
            Ok(listing) => r matches Ok(devices) && devices.deep_view() == listing,
            Err(fault) => r matches Err(f) && f == fault,
        },
{
    if !output.success {
        return Err(Fault::ToolFailed);
    }
    match decode_text(output.stdout) {
        None => Err(Fault::NotText),
        Some(text) => parse_listing(text.as_str()),
    }
}

/// Where the search for the BIOS boot partition stands.
#[derive(Debug, Clone, Copy, PartialEq, Eq, Structural)]
pub enum PartitionState {
    /// Looking up the boot device.
    Resolving(ResolveState),
    /// Listing the partitions of the boot device.
    Listing,
}

impl DeepView for PartitionState {
    type V = PartitionState;

    open spec fn deep_view(&self) -> PartitionState {
        *self
    }
}

/// A step of the device lookup, seen as a step of the search: once the device
/// is known, its partitions are listed.
pub open spec fn after_lookup(step: StepView<ResolveState, Seq<char>>) -> StepView<
    PartitionState,
    Option<Seq<char>>,
> {
    match step {
        StepView::Next(state, action) => StepView::Next(PartitionState::Resolving(state), action),
        StepView::Done(device) => StepView::Next(
            PartitionState::Listing,
            ActionView::Query(listing_query(device)),
        ),
        StepView::Failed(error) => StepView::Failed(error),
    }
}

/// The first step of the search for the BIOS boot partition.
pub open spec fn partition_start(platform: Platform) -> StepView<PartitionState, Option<Seq<char>>> {
    after_lookup(resolve_start(platform))
}

/// The step that follows `event` in `state`. The search ends with the first
/// partition of type `BIOS boot` on a `gpt` table, or with `None` where the
/// device has none.
pub open spec fn partition_advance(state: PartitionState, event: EventView) -> StepView<
    PartitionState,
    Option<Seq<char>>,
> {
    match state {
        PartitionState::Resolving(lookup) => after_lookup(resolve_advance(lookup, event)),
        PartitionState::Listing => match event {
            EventView::Ran(output) => match listing_result(output) {
                Ok(listing) => StepView::Done(first_partition(listing, "gpt"@, "BIOS boot"@)),
                Err(fault) => StepView::Failed(BootErrorView::Query(fault)),
            },
            _ => StepView::Failed(BootErrorView::OutOfTurn),
        },
    }
}

fn lift_lookup(step: Step<ResolveState, String>) -> (r: Step<PartitionState, Option<String>>)
    ensures
        r.deep_view() == after_lookup(step.deep_view()),
{
    match step {
        Step::Next(state, action) => Step::Next(PartitionState::Resolving(state), action),
        Step::Done(device) => Step::Next(
            PartitionState::Listing,
            Action::Query(build_listing_query(device.as_str())),
        ),
        Step::Failed(error) => Step::Failed(error),
    }
}

impl Bios {
    /// Starts the search for the BIOS boot partition of the boot device.
    pub fn get_bios_boot_partition(&self) -> (r: Step<PartitionState, Option<String>>)
        ensures
            r.deep_view() == partition_start(self.platform),
    {
        lift_lookup(self.get_device())
    }

    /// Takes the search one step further, given the outcome of the query
    /// that was pending in `state`.
    pub fn get_bios_boot_partition_next(&self, state: PartitionState, event: Event) -> (r: Step<
        PartitionState,
        Option<String>,
    >)
        ensures
            r.deep_view() == partition_advance(state, event.deep_view()),
    {
        match state {
            PartitionState::Resolving(lookup) => lift_lookup(self.get_device_next(lookup, event)),
            PartitionState::Listing => match event {
                Event::Ran(output) => match read_listing(output) {
                    Ok(devices) => Step::Done(find_partition_by_type(&devices, "gpt", "BIOS boot")),
                    Err(fault) => Step::Failed(BootError::Query(fault)),
                },
                _ => Step::Failed(BootError::OutOfTurn),
            },
        }
    }
}

} // verus!
