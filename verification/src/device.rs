//! Device-facing decisions of the viewer: recognizing a RealSense device
//! by name, finding the first one in a device list, and deciding what to
//! do with the pipeline when the selected device changes.
use vstd::prelude::*;
use vstd::string::StringSliceAdditionalSpecFns;
use vstd::utf8::encode_utf8;

verus! {

/// The name prefix every supported device carries, as UTF-8 bytes.
pub open spec fn spec_realsense_prefix() -> Seq<u8> {
    ("Intel RealSense").spec_bytes()
}

/// Whether a device name, as UTF-8 bytes, starts with the RealSense
/// prefix.
pub open spec fn spec_is_realsense_bytes(name: Seq<u8>) -> bool {
    name.len() >= spec_realsense_prefix().len() && name.subrange(
        0,
        spec_realsense_prefix().len() as int,
    ) == spec_realsense_prefix()
}

/// Whether one byte slice starts with another.
fn bytes_start_with(s: &[u8], prefix: &[u8]) -> (r: bool)
    ensures
        r == (prefix@.len() <= s@.len() && s@.subrange(0, prefix@.len() as int) == prefix@),
{
    if prefix.len() > s.len() {
        return false;
    }
    let n = prefix.len();
    let mut i: usize = 0;
    while i < n
        invariant
            i <= n,
            n == prefix@.len(),
            n <= s@.len(),
            forall|j: int| 0 <= j < i ==> s@[j] == prefix@[j],
        decreases n - i,
    {
        if s[i] != prefix[i] {
            proof {
                assert(s@.subrange(0, n as int)[i as int] == s@[i as int]);
            }
            return false;
        }
        i = i + 1;
    }
    proof {
        assert(s@.subrange(0, n as int) =~= prefix@);
    }
    true
}

/// Whether two byte slices hold the same bytes.
fn bytes_equal(a: &[u8], b: &[u8]) -> (r: bool)
    ensures
        r == (a@ == b@),
{
    if a.len() != b.len() {
        return false;
    }
    let n = a.len();
    let mut i: usize = 0;
    while i < n
        invariant
            i <= n,
            n == a@.len(),
            n == b@.len(),
            forall|j: int| 0 <= j < i ==> a@[j] == b@[j],
        decreases n - i,
    {
        if a[i] != b[i] {
            return false;
        }
        i = i + 1;
    }
    proof {
        assert(a@ =~= b@);
    }
    true
}

/// Whether a device name begins with the RealSense prefix.
pub fn is_realsense_name(name: &str) -> (r: bool)
    ensures
        r == spec_is_realsense_bytes(name.spec_bytes()),
{
    let prefix = "Intel RealSense";
    bytes_start_with(name.as_bytes(), prefix.as_bytes())
}

/// The position of the first device in the list whose name begins with
/// the RealSense prefix, if any.
pub fn find_realsense(names: &Vec<String>) -> (r: Option<usize>)
    ensures
        r matches Some(i) ==> i < names@.len() && spec_is_realsense_bytes(
            encode_utf8(names@[i as int]@),
        ) && forall|j: int| 0 <= j < i ==> !spec_is_realsense_bytes(encode_utf8(names@[j]@)),
        r is None ==> forall|j: int|
            0 <= j < names@.len() ==> !spec_is_realsense_bytes(encode_utf8(names@[j]@)),
{
    let n = names.len();
    let mut i: usize = 0;
    while i < n
        invariant
            i <= n,
            n == names@.len(),
            forall|j: int| 0 <= j < i ==> !spec_is_realsense_bytes(encode_utf8(names@[j]@)),
        decreases n - i,
    {
        if is_realsense_name(names[i].as_str()) {
            return Some(i);
        }
        i = i + 1;
    }
    None
}

/// What the viewer does with its pipeline after looking at the selected
/// device.
#[derive(Clone, Copy, Debug, PartialEq, Eq, Structural)]
pub enum DeviceAction {
    /// No device is connected: drop the pipeline and warn.
    NoDevices,
    /// The selected position is past the end of the device list: drop the
    /// pipeline and warn.
    DeviceGone,
    /// The selected device is not a RealSense: drop the pipeline and
    /// warn.
    NotRealSense,
    /// The running pipeline already reads from the selected device: leave
    /// it as it is.
    KeepCurrent,
    /// Start (or restart) the pipeline on the selected device.
    StartNew,
}

/// The action `select_device_action` returns, checked in order: an empty
/// list, a stale selection, a foreign device, an already-running
/// pipeline on the same serial number, and otherwise a restart.
pub open spec fn spec_select_device_action(
    dev_index: int,
    device_count: int,
    name: &str,
    new_serial: &str,
    current_serial: Option<&str>,
) -> DeviceAction {
    if device_count == 0 {
        DeviceAction::NoDevices
    } else if dev_index >= device_count {
        DeviceAction::DeviceGone
    } else if !spec_is_realsense_bytes(name.spec_bytes()) {
        DeviceAction::NotRealSense
    } else {
        match current_serial {
            Some(cur) => if cur.spec_bytes() == new_serial.spec_bytes() {
                DeviceAction::KeepCurrent
            } else {
                DeviceAction::StartNew
            },
            None => DeviceAction::StartNew,
        }
    }
}

/// Decides what to do with the pipeline for the selected device: `name`
/// and `new_serial` describe the device at the selected position, and
/// `current_serial` is the serial number the running pipeline reads
/// from, if one runs.
pub fn select_device_action(
    dev_index: u8,
    device_count: usize,
    name: &str,
    new_serial: &str,
    current_serial: Option<&str>,
) -> (r: DeviceAction)
    ensures
        r == spec_select_device_action(
            dev_index as int,
            device_count as int,
            name,
            new_serial,
            current_serial,
        ),
{
    if device_count == 0 {
        DeviceAction::NoDevices
    } else if dev_index as usize >= device_count {
        DeviceAction::DeviceGone
    } else if !is_realsense_name(name) {
        DeviceAction::NotRealSense
    } else {
        match current_serial {
            Some(cur) => {
                if bytes_equal(cur.as_bytes(), new_serial.as_bytes()) {
                    DeviceAction::KeepCurrent
                } else {
                    DeviceAction::StartNew
                }
            },
            None => DeviceAction::StartNew,
        }
    }
}

/// A device info string, or the placeholder shown when the device does
/// not report that field.
pub fn info_or_na(info: Option<String>) -> (r: String)
    ensures
        info matches Some(s) ==> r@ == s@,
        info is None ==> r@ == ("N/A")@,
{
    match info {
        Some(s) => s,
        None => ("N/A").to_owned(),
    }
}

} // verus!
