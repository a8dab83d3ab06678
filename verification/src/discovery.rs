//! Finding the controller to use among the devices that the transports
//! report.
//!
//! The caller lists the gamepads and the plain HID devices that are
//! connected; the library turns the lists into devices, picks one by name
//! or by the ids of the device used last, and says over which transport a
//! device is polled.

use vstd::prelude::*;
use crate::device::{
    controller_type_of, detect_controller_type, device_views, ControllerType, DeviceInfo,
    DeviceInfoView,
};
use crate::setting::LastConnectedDevice;
use crate::text::{eq_ignore_ascii_case, hex4, hex4_spec, same_ignoring_ascii_case, str_eq};

verus! {

/// What a gamepad transport reports of one gamepad.
#[derive(Debug)]
pub struct GamepadInfo {
    pub name: String,
    pub vendor_id: Option<u16>,
    pub product_id: Option<u16>,
    pub uuid: [u8; 16],
}

/// What the HID transport reports of one device.
#[derive(Debug)]
pub struct HidDeviceInfo {
    pub vendor_id: u16,
    pub product_id: u16,
    pub path: String,
}

/// Whether every byte is zero.
pub open spec fn all_zero(bytes: Seq<u8>) -> bool {
    forall|i: int| 0 <= i < bytes.len() ==> bytes[i] == 0
}

/// `Uuid::from_bytes` followed by `Uuid::is_nil` of the crate `uuid`: the
/// UUID made of the sixteen bytes is the nil UUID exactly when all of them
/// are zero.
#[verifier::external_body]
fn uuid_is_nil(bytes: &[u8; 16]) -> (nil: bool)
    ensures
        nil == all_zero(bytes@),
{
    uuid::Uuid::from_bytes(*bytes).is_nil()
}

/// The device that a gamepad is listed as, where it reports both of its
/// ids.
pub open spec fn device_of(gamepad: GamepadInfo) -> Option<DeviceInfoView> {
    if gamepad.vendor_id is Some && gamepad.product_id is Some {
        Some(
            DeviceInfoView {
                name: gamepad.name@,
                vendor_id: hex4_spec(gamepad.vendor_id->0),
                product_id: Some(hex4_spec(gamepad.product_id->0)),
                sub_product_id: None,
                uuid_is_invalid: all_zero(gamepad.uuid@),
                device_path: None,
                controller_type: controller_type_of(hex4_spec(gamepad.vendor_id->0)),
            },
        )
    } else {
        None
    }
}

/// A device with what one HID device adds to it: a HID device of the same
/// vendor gives the device its path and its product id as sub-product id.
pub open spec fn with_hid(device: DeviceInfoView, hid: HidDeviceInfo) -> DeviceInfoView {
    if same_ignoring_ascii_case(device.vendor_id, hex4_spec(hid.vendor_id)) {
        DeviceInfoView {
            sub_product_id: Some(hex4_spec(hid.product_id)),
            device_path: Some(hid.path@),
            ..device
        }
    } else {
        device
    }
}

/// A device with what the HID devices add to it, the later ones counting
/// over the earlier ones.
pub open spec fn with_all_hid(device: DeviceInfoView, hids: Seq<HidDeviceInfo>) -> DeviceInfoView
    decreases hids.len(),
{
    if hids.len() == 0 {
        device
    } else {
        with_hid(with_all_hid(device, hids.drop_last()), hids.last())
    }
}

/// The connected devices: one for each gamepad that reports both ids, in
/// the order of the gamepads, each with what the HID devices add to it.
pub open spec fn connected_devices(
    gamepads: Seq<GamepadInfo>,
    hids: Seq<HidDeviceInfo>,
) -> Seq<DeviceInfoView>
    decreases gamepads.len(),
{
    if gamepads.len() == 0 {
        Seq::empty()
    } else {
        let before = connected_devices(gamepads.drop_last(), hids);
        match device_of(gamepads.last()) {
            Some(device) => before.push(with_all_hid(device, hids)),
            None => before,
        }
    }
}

fn add_hid(device: &mut DeviceInfo, hids: &Vec<HidDeviceInfo>)
    ensures
        final(device)@ == with_all_hid(old(device)@, hids@),
{
    let mut i: usize = 0;
    while i < hids.len()
        invariant
            i <= hids.len(),
            device@ == with_all_hid(old(device)@, hids@.take(i as int)),
        decreases hids.len() - i,
    {
        proof {
            assert(hids@.take(i + 1).drop_last() =~= hids@.take(i as int));
            assert(hids@.take(i + 1).last() == hids@[i as int]);
        }
        let vid = hex4(hids[i].vendor_id);
        if eq_ignore_ascii_case(device.vendor_id.as_str(), vid.as_str()) {
            device.sub_product_id = Some(hex4(hids[i].product_id));
            device.device_path = Some(hids[i].path.clone());
        }
        i += 1;
    }
    assert(hids@.take(i as int) =~= hids@);
}

/// Lists the connected devices from what the transports report.
pub fn list_supported_connected_devices(
    gamepads: &Vec<GamepadInfo>,
    hids: &Vec<HidDeviceInfo>,
) -> (devices: Vec<DeviceInfo>)
    ensures
        device_views(devices@) == connected_devices(gamepads@, hids@),
{
    let mut devices: Vec<DeviceInfo> = Vec::new();
    let mut i: usize = 0;
    assert(device_views(devices@) =~= Seq::<DeviceInfoView>::empty());
    assert(gamepads@.take(0) =~= Seq::<GamepadInfo>::empty());
    while i < gamepads.len()
        invariant
            i <= gamepads.len(),
            device_views(devices@) == connected_devices(gamepads@.take(i as int), hids@),
        decreases gamepads.len() - i,
    {
        proof {
            assert(gamepads@.take(i + 1).drop_last() =~= gamepads@.take(i as int));
            assert(gamepads@.take(i + 1).last() == gamepads@[i as int]);
        }
        let gamepad = &gamepads[i];
        match (gamepad.vendor_id, gamepad.product_id) {
            (Some(vid), Some(pid)) => {
                let vid_str = hex4(vid);
                let controller_type = detect_controller_type(vid_str.as_str());
                let mut device = DeviceInfo {
                    name: gamepad.name.clone(),
                    vendor_id: vid_str,
                    product_id: Some(hex4(pid)),
                    sub_product_id: None,
                    uuid_is_invalid: uuid_is_nil(&gamepad.uuid),
                    device_path: None,
                    controller_type,
                };
                add_hid(&mut device, hids);
                assert(device_views(devices@.push(device)) =~= device_views(devices@).push(
                    device@,
                ));
                devices.push(device);
            },
            _ => {},
        }
        i += 1;
    }
    assert(gamepads@.take(i as int) =~= gamepads@);
    devices
}

/// Whether `i` is the place of the first device with the given name.
pub open spec fn is_first_named(devices: Seq<DeviceInfoView>, name: Seq<char>, i: int) -> bool {
    &&& 0 <= i < devices.len()
    &&& devices[i].name == name
    &&& forall|j: int| 0 <= j < i ==> (#[trigger] devices[j]).name != name
}

/// A copy of the first device with the given name.
pub fn _find_device_by_name(devices: &Vec<DeviceInfo>, name: &str) -> (found: Option<DeviceInfo>)
    ensures
        match found {
            Some(device) => exists|i: int|
                is_first_named(device_views(devices@), name@, i) && device@ == device_views(
                    devices@,
                )[i],
            None => forall|i: int|
                0 <= i < devices@.len() ==> (#[trigger] device_views(devices@)[i]).name != name@,
        },
{
    let mut i: usize = 0;
    while i < devices.len()
        invariant
            i <= devices.len(),
            forall|j: int| 0 <= j < i ==> (#[trigger] device_views(devices@)[j]).name != name@,
        decreases devices.len() - i,
    {
        assert(device_views(devices@)[i as int] == devices@[i as int]@);
        if str_eq(devices[i].name.as_str(), name) {
            assert(is_first_named(device_views(devices@), name@, i as int));
            return Some(devices[i].duplicate());
        }
        i += 1;
    }
    None
}

/// Whether a device is the one that was connected last: its vendor id is
/// the same, and its product id or its sub-product id is the same or was
/// not known.
pub open spec fn is_last_connected(device: DeviceInfoView, last: LastConnectedDevice) -> bool {
    &&& device.vendor_id == hex4_spec(last.vid)
    &&& {
        ||| last.pid == 0
        ||| device.product_id == Some(hex4_spec(last.pid))
        ||| last.sub_pid == 0
        ||| device.sub_product_id == Some(hex4_spec(last.sub_pid))
    }
}

fn text_is(value: &Option<String>, text: &str) -> (same: bool)
    ensures
        same == (crate::device::text_of(*value) == Some(text@)),
{
    match value {
        Some(held) => str_eq(held.as_str(), text),
        None => false,
    }
}

/// Says whether a device is the one that was connected last.
pub fn matches_last_connected(device: &DeviceInfo, last: &LastConnectedDevice) -> (same: bool)
    ensures
        same == is_last_connected(device@, *last),
{
    let vid = hex4(last.vid);
    if !str_eq(device.vendor_id.as_str(), vid.as_str()) {
        return false;
    }
    if last.pid == 0 || last.sub_pid == 0 {
        return true;
    }
    let pid = hex4(last.pid);
    let sub_pid = hex4(last.sub_pid);
    text_is(&device.product_id, pid.as_str()) || text_is(&device.sub_product_id, sub_pid.as_str())
}

/// The device to connect to at start: the first connected device that is
/// the one connected last, where the settings ask to remember it.
pub fn try_auto_connect_last_device(
    devices: &Vec<DeviceInfo>,
    remember_last_connection: bool,
    last_connected_device: Option<LastConnectedDevice>,
) -> (found: Option<DeviceInfo>)
    ensures
        !remember_last_connection || last_connected_device is None ==> found is None,
        remember_last_connection && last_connected_device is Some ==> match found {
            Some(device) => exists|i: int|
                0 <= i < devices@.len() && device@ == devices@[i]@ && is_last_connected(
                    devices@[i]@,
                    last_connected_device->0,
                ) && forall|j: int|
                    0 <= j < i ==> !is_last_connected(
                        (#[trigger] devices@[j])@,
                        last_connected_device->0,
                    ),
            None => forall|i: int|
                0 <= i < devices@.len() ==> !is_last_connected(
                    (#[trigger] devices@[i])@,
                    last_connected_device->0,
                ),
        },
{
    if !remember_last_connection {
        return None;
    }
    let last = match last_connected_device {
        Some(last) => last,
        None => {
            return None;
        },
    };
    let mut i: usize = 0;
    while i < devices.len()
        invariant
            i <= devices.len(),
            remember_last_connection,
            last_connected_device == Some(last),
            forall|j: int| 0 <= j < i ==> !is_last_connected((#[trigger] devices@[j])@, last),
        decreases devices.len() - i,
    {
        if matches_last_connected(&devices[i], &last) {
            let found = devices[i].duplicate();
            assert(found@ == devices@[i as int]@ && is_last_connected(devices@[i as int]@, last));
            return Some(found);
        }
        i += 1;
    }
    None
}

/// The transport over which a device is polled.
#[derive(Clone, Copy, Debug, PartialEq, Eq, Structural)]
pub enum Transport {
    /// The console-pad interface of Windows.
    XInput,
    /// The gamepad-event library.
    Gamepad,
    /// None: the device cannot be polled and is to be disconnected.
    Unsupported,
}

/// The transport for a device.
///
/// An Xbox controller without a usable UUID goes over XInput where the
/// platform has it. A controller of unknown family without a usable UUID
/// cannot be polled. Everything else goes over the gamepad-event library.
pub open spec fn transport_of(device: DeviceInfoView, has_xinput: bool) -> Transport {
    match device.controller_type {
        ControllerType::Xbox => if has_xinput && device.uuid_is_invalid {
            Transport::XInput
        } else {
            Transport::Gamepad
        },
        ControllerType::PlayStation => Transport::Gamepad,
        _ => if device.uuid_is_invalid {
            Transport::Unsupported
        } else {
            Transport::Gamepad
        },
    }
}

/// Says over which transport a device is polled.
pub fn poll_controller(device: &DeviceInfo, has_xinput: bool) -> (transport: Transport)
    ensures
        transport == transport_of(device@, has_xinput),
{
    match device.controller_type {
        ControllerType::Xbox => {
            if has_xinput && device.uuid_is_invalid {
                Transport::XInput
            } else {
                Transport::Gamepad
            }
        },
        ControllerType::PlayStation => Transport::Gamepad,
        _ => {
            if device.uuid_is_invalid {
                Transport::Unsupported
            } else {
                Transport::Gamepad
            }
        },
    }
}

/// Whether a gamepad with the given ids is the device: both ids are those
/// of the device, letters counting without regard to case.
pub open spec fn is_gamepad_of(device: DeviceInfoView, vid: u16, pid: u16) -> bool {
    same_ignoring_ascii_case(hex4_spec(vid), device.vendor_id) && device.product_id is Some
        && same_ignoring_ascii_case(hex4_spec(pid), device.product_id->0)
}

/// Says whether a gamepad with the given ids is the device to poll.
pub fn poll_other_controllers(device: &DeviceInfo, vid: u16, pid: u16) -> (same: bool)
    ensures
        same == is_gamepad_of(device@, vid, pid),
{
    let vid_str = hex4(vid);
    if !eq_ignore_ascii_case(vid_str.as_str(), device.vendor_id.as_str()) {
        return false;
    }
    match &device.product_id {
        Some(product_id) => {
            let pid_str = hex4(pid);
            eq_ignore_ascii_case(pid_str.as_str(), product_id.as_str())
        },
        None => false,
    }
}

/// What XInput reports of the pad in one of its slots.
#[derive(Clone, Copy, Debug, PartialEq, Eq, Structural)]
pub struct XInputPad {
    pub vendor_id: u16,
    pub product_id: u16,
}

/// Whether the pad in an XInput slot is the device: the vendor ids are the
/// same, and the product id of the pad is the product id or the
/// sub-product id of the device.
pub open spec fn is_pad_of(device: DeviceInfoView, pad: XInputPad) -> bool {
    &&& same_ignoring_ascii_case(hex4_spec(pad.vendor_id), device.vendor_id)
    &&& {
        ||| (device.product_id is Some && same_ignoring_ascii_case(
            hex4_spec(pad.product_id),
            device.product_id->0,
        ))
        ||| (device.sub_product_id is Some && same_ignoring_ascii_case(
            hex4_spec(pad.product_id),
            device.sub_product_id->0,
        ))
    }
}

fn pad_matches(device: &DeviceInfo, pad: &XInputPad) -> (same: bool)
    ensures
        same == is_pad_of(device@, *pad),
{
    let vid = hex4(pad.vendor_id);
    if !eq_ignore_ascii_case(vid.as_str(), device.vendor_id.as_str()) {
        return false;
    }
    let pid = hex4(pad.product_id);
    let by_product = match &device.product_id {
        Some(id) => eq_ignore_ascii_case(pid.as_str(), id.as_str()),
        None => false,
    };
    if by_product {
        return true;
    }
    match &device.sub_product_id {
        Some(id) => eq_ignore_ascii_case(pid.as_str(), id.as_str()),
        None => false,
    }
}

/// The XInput slot to poll for a device: the first slot whose pad is the
/// device. Where no slot holds it, the device has been unplugged.
pub fn poll_xbox_controller(device: &DeviceInfo, slots: &Vec<Option<XInputPad>>) -> (slot: Option<
    usize,
>)
    ensures
        match slot {
            Some(i) => i < slots@.len() && slots@[i as int] is Some && is_pad_of(
                device@,
                slots@[i as int]->0,
            ) && forall|j: int|
                0 <= j < i ==> !((#[trigger] slots@[j]) is Some && is_pad_of(device@, slots@[j]->0)),
            None => forall|j: int|
                0 <= j < slots@.len() ==> !((#[trigger] slots@[j]) is Some && is_pad_of(
                    device@,
                    slots@[j]->0,
                )),
        },
{
    let mut i: usize = 0;
    while i < slots.len()
        invariant
            i <= slots.len(),
            forall|j: int|
                0 <= j < i ==> !((#[trigger] slots@[j]) is Some && is_pad_of(device@, slots@[j]->0)),
        decreases slots.len() - i,
    {
        match &slots[i] {
            Some(pad) => {
                if pad_matches(device, pad) {
                    return Some(i);
                }
            },
            None => {},
        }
        i += 1;
    }
    None
}

} // verus!
