//! Firmware devices, as the firmware updater reports them in JSON.

use crate::json::{json_of, read_json, Json};
use crate::text::{empty_text, texts, text_eq};
use crate::ui::{make_row, plain_row, row_views, BACKEND_FIRMWARE, PackageData, RowView};
use vstd::prelude::*;

verus! {

/// The devices that a report lists: the items of its member `Devices`.
pub open spec fn devices_of(report: Json) -> Seq<Json> {
    match report.member("Devices"@) {
        Some(Json::List(items)) => items@,
        _ => Seq::empty(),
    }
}

/// Whether `flags[from..]` hold the text `updatable`.
pub open spec fn flagged_from(flags: Seq<Json>, from: int) -> bool
    decreases flags.len() - from,
{
    if from < 0 || from >= flags.len() {
        false
    } else if flags[from].text() == Some("updatable"@) {
        true
    } else {
        flagged_from(flags, from + 1)
    }
}

/// Whether a device can be updated: its member `Flags` is a list that holds
/// the text `updatable`.
pub open spec fn updatable(device: Json) -> bool {
    match device.member("Flags"@) {
        Some(Json::List(flags)) => flagged_from(flags@, 0),
        _ => false,
    }
}

/// The identifiers of the first `n` of `devices`, where one that has none
/// counts as having the empty one.
pub open spec fn device_ids(devices: Seq<Json>, n: int) -> Seq<Seq<char>>
    decreases n,
{
    if n <= 0 {
        Seq::empty()
    } else {
        device_ids(devices, n - 1).push(devices[n - 1].text_of("DeviceId"@, Seq::empty()))
    }
}

/// How a device is described: by its vendor, where it names one.
pub open spec fn firmware_description(vendor: Seq<char>) -> Seq<char> {
    if vendor.len() == 0 {
        "Firmware device"@
    } else {
        "Firmware by "@ + vendor
    }
}

/// The row for a device, marked where an update is pending for it.
pub open spec fn firmware_row(device: Json, pending: Seq<Seq<char>>) -> RowView {
    plain_row(
        device.text_of("DeviceId"@, Seq::empty()),
        device.text_of("Name"@, "Unknown Device"@),
        device.text_of("Version"@, "unknown"@),
        firmware_description(device.text_of("Vendor"@, Seq::empty())),
        "fwupd"@,
        BACKEND_FIRMWARE,
        true,
        pending.contains(device.text_of("DeviceId"@, Seq::empty())),
    )
}

/// The rows for the first `n` of `devices`: one for each that can be
/// updated, in order.
pub open spec fn firmware_rows(devices: Seq<Json>, n: int, pending: Seq<Seq<char>>) -> Seq<
    RowView,
>
    decreases n,
{
    if n <= 0 {
        Seq::empty()
    } else if updatable(devices[n - 1]) {
        firmware_rows(devices, n - 1, pending).push(firmware_row(devices[n - 1], pending))
    } else {
        firmware_rows(devices, n - 1, pending)
    }
}

/// The firmware rows that two reports give: the devices of the first that
/// can be updated, each marked where the second lists its identifier.
pub open spec fn firmware_of(devices: Option<Json>, updates: Option<Json>) -> Seq<RowView> {
    let pending = match updates {
        Some(report) => device_ids(devices_of(report), devices_of(report).len() as int),
        None => Seq::empty(),
    };
    match devices {
        Some(report) => firmware_rows(
            devices_of(report),
            devices_of(report).len() as int,
            pending,
        ),
        None => Seq::empty(),
    }
}

/// Tests whether a device can be updated.
#[verifier::loop_isolation(false)]
fn is_updatable(device: &Json) -> (r: bool)
    ensures
        r == updatable(*device),
{
    let flags = match device.get("Flags") {
        Some(value) => match value.as_array() {
            Some(items) => items,
            None => {
                return false;
            },
        },
        None => {
            return false;
        },
    };
    let mut i: usize = 0;
    while i < flags.len()
        invariant
            i <= flags@.len(),
            flagged_from(flags@, i as int) == flagged_from(flags@, 0),
        decreases flags@.len() - i,
    {
        if let Some(text) = flags[i].as_str() {
            if text_eq(text, "updatable") {
                return true;
            }
        }
        i = i + 1;
    }
    false
}

/// The devices that a report lists.
fn devices_in(report: &Json) -> (r: Option<&Vec<Json>>)
    ensures
        match r {
            Some(items) => devices_of(*report) == items@,
            None => devices_of(*report) == Seq::<Json>::empty(),
        },
{
    match report.get("Devices") {
        Some(value) => value.as_array(),
        None => None,
    }
}

/// The identifiers of the devices for which a report lists an update.
pub fn pending_ids(report: &Json) -> (r: Vec<String>)
    ensures
        texts(r@) == device_ids(devices_of(*report), devices_of(*report).len() as int),
{
    let mut ids: Vec<String> = Vec::new();
    if let Some(devices) = devices_in(report) {
        let mut i: usize = 0;
        while i < devices.len()
            invariant
                i <= devices@.len(),
                texts(ids@) == device_ids(devices@, i as int),
            decreases devices@.len() - i,
        {
            let id = String::from_str(devices[i].text_or("DeviceId", empty_text()));
            ids.push(id);
            i = i + 1;
        }
    }
    ids
}

/// Tests whether `id` is among `pending`.
fn is_pending(id: &str, pending: &Vec<String>) -> (r: bool)
    ensures
        r == texts(pending@).contains(id@),
{
    let mut i: usize = 0;
    while i < pending.len()
        invariant
            i <= pending@.len(),
            forall|k: int| 0 <= k < i ==> texts(pending@)[k] != id@,
        decreases pending@.len() - i,
    {
        if text_eq(pending[i].as_str(), id) {
            assert(texts(pending@)[i as int] == id@);
            return true;
        }
        i = i + 1;
    }
    false
}

/// The row for one device.
fn device_row(device: &Json, pending: &Vec<String>) -> (r: PackageData)
    ensures
        r@ == firmware_row(*device, texts(pending@)),
{
    let name = device.text_or("Name", "Unknown Device");
    let version = device.text_or("Version", "unknown");
    let vendor = device.text_or("Vendor", empty_text());
    let device_id = device.text_or("DeviceId", empty_text());
    let description = if vendor.unicode_len() == 0 {
        String::from_str("Firmware device")
    } else {
        let mut text = String::from_str("Firmware by ");
        text.append(vendor);
        text
    };
    make_row(
        device_id,
        name,
        version,
        description.as_str(),
        "fwupd",
        BACKEND_FIRMWARE,
        true,
        is_pending(device_id, pending),
    )
}

/// The rows for the devices that a report lists, of those that can be
/// updated, each marked where its identifier is among `pending`.
pub fn device_rows(report: &Json, pending: &Vec<String>) -> (r: Vec<PackageData>)
    ensures
        row_views(r@) == firmware_rows(
            devices_of(*report),
            devices_of(*report).len() as int,
            texts(pending@),
        ),
{
    let mut firmware: Vec<PackageData> = Vec::new();
    if let Some(devices) = devices_in(report) {
        let mut i: usize = 0;
        while i < devices.len()
            invariant
                i <= devices@.len(),
                row_views(firmware@) == firmware_rows(devices@, i as int, texts(pending@)),
            decreases devices@.len() - i,
        {
            // Only show updatable devices
            if is_updatable(&devices[i]) {
                let row = device_row(&devices[i], pending);
                firmware.push(row);
            }
            i = i + 1;
        }
    }
    firmware
}

/// List firmware devices, from what the firmware updater printed when asked
/// for the devices and for the updates; `None` stands for a command that
/// failed.
pub fn list_firmware(devices: Option<&str>, updates: Option<&str>) -> (r: Vec<PackageData>)
    ensures
        row_views(r@) == firmware_of(
            match devices {
                Some(text) => json_of(text@),
                None => None,
            },
            match updates {
                Some(text) => json_of(text@),
                None => None,
            },
        ),
{
    // Check for firmware updates
    let update_report = match updates {
        Some(text) => read_json(text),
        None => None,
    };
    let pending = match &update_report {
        Some(report) => pending_ids(report),
        None => Vec::new(),
    };
    proof {
        if update_report is None {
            assert(texts(pending@) =~= Seq::<Seq<char>>::empty());
        }
    }
    // Get devices with firmware
    let device_report = match devices {
        Some(text) => read_json(text),
        None => None,
    };
    match &device_report {
        Some(report) => device_rows(report, &pending),
        None => {
            let none: Vec<PackageData> = Vec::new();
            none
        },
    }
}

} // verus!
