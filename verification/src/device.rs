//! Controller devices: what is known of one, and how its family is told
//! from its vendor id.

use vstd::prelude::*;
use vstd::string::*;
use crate::text::{eq_ignore_ascii_case, same_ignoring_ascii_case};

verus! {

/// Family of a controller.
#[derive(Clone, Copy, Debug, PartialEq, Eq, Hash, Structural)]
pub enum ControllerType {
    Xbox,
    PlayStation,
    Switch,
    Betop,
    Other,
}

/// Which stick of a controller.
#[derive(Clone, Copy, Debug, PartialEq, Eq, Hash, Structural)]
pub enum JoystickSource {
    LeftStick,
    RightStick,
}

/// What is known of one controller device.
#[derive(Debug)]
pub struct DeviceInfo {
    /// Name shown to the user.
    pub name: String,
    /// Vendor id as four hexadecimal digits.
    pub vendor_id: String,
    /// Product id as four hexadecimal digits.
    pub product_id: Option<String>,
    /// Product id under which the device is listed as a plain HID device.
    pub sub_product_id: Option<String>,
    /// Whether the device reports no usable UUID.
    pub uuid_is_invalid: bool,
    /// Path of the device, known once it is connected.
    pub device_path: Option<String>,
    pub controller_type: ControllerType,
}

/// A device as a mathematical value.
pub struct DeviceInfoView {
    pub name: Seq<char>,
    pub vendor_id: Seq<char>,
    pub product_id: Option<Seq<char>>,
    pub sub_product_id: Option<Seq<char>>,
    pub uuid_is_invalid: bool,
    pub device_path: Option<Seq<char>>,
    pub controller_type: ControllerType,
}

/// The text of an optional string.
pub open spec fn text_of(value: Option<String>) -> Option<Seq<char>> {
    match value {
        Some(text) => Some(text@),
        None => None,
    }
}

impl View for DeviceInfo {
    type V = DeviceInfoView;

    open spec fn view(&self) -> DeviceInfoView {
        DeviceInfoView {
            name: self.name@,
            vendor_id: self.vendor_id@,
            product_id: text_of(self.product_id),
            sub_product_id: text_of(self.sub_product_id),
            uuid_is_invalid: self.uuid_is_invalid,
            device_path: text_of(self.device_path),
            controller_type: self.controller_type,
        }
    }
}

/// The views of a list of devices.
pub open spec fn device_views(devices: Seq<DeviceInfo>) -> Seq<DeviceInfoView> {
    devices.map_values(|device: DeviceInfo| device@)
}

/// A device of which only name, vendor and family are known.
pub open spec fn listed(
    name: Seq<char>,
    vendor_id: Seq<char>,
    controller_type: ControllerType,
) -> DeviceInfoView {
    DeviceInfoView {
        name,
        vendor_id,
        product_id: None,
        sub_product_id: None,
        uuid_is_invalid: false,
        device_path: None,
        controller_type,
    }
}

/// Copies an optional string.
pub fn clone_text(value: &Option<String>) -> (copy: Option<String>)
    ensures
        text_of(copy) == text_of(*value),
{
    match value {
        Some(text) => Some(text.clone()),
        None => None,
    }
}

impl DeviceInfo {
    /// A device of which only name, vendor and family are known.
    pub fn new(name: String, vendor_id: String, controller_type: ControllerType) -> (device: Self)
        ensures
            device@ == listed(name@, vendor_id@, controller_type),
    {
        DeviceInfo {
            name,
            vendor_id,
            product_id: None,
            sub_product_id: None,
            uuid_is_invalid: false,
            device_path: None,
            controller_type,
        }
    }

    /// A copy of this device.
    pub fn duplicate(&self) -> (copy: Self)
        ensures
            copy@ == self@,
    {
        DeviceInfo {
            name: self.name.clone(),
            vendor_id: self.vendor_id.clone(),
            product_id: clone_text(&self.product_id),
            sub_product_id: clone_text(&self.sub_product_id),
            uuid_is_invalid: self.uuid_is_invalid,
            device_path: clone_text(&self.device_path),
            controller_type: self.controller_type,
        }
    }
}

impl Clone for DeviceInfo {
    fn clone(&self) -> (copy: Self)
        ensures
            copy@ == self@,
    {
        self.duplicate()
    }
}

/// The family that a vendor id stands for: `045e` is the Xbox family,
/// `054c` the PlayStation family, and every other id a controller of no
/// known family. Letters in the id count without regard to case.
pub open spec fn controller_type_of(vid: Seq<char>) -> ControllerType {
    if same_ignoring_ascii_case(vid, "045e"@) {
        ControllerType::Xbox
    } else if same_ignoring_ascii_case(vid, "054c"@) {
        ControllerType::PlayStation
    } else {
        ControllerType::Other
    }
}

/// Tells the family of a controller from its vendor id. Families that no
/// vendor id stands for, such as `Switch`, are given to a device by the list
/// of supported devices.
pub fn detect_controller_type(vid: &str) -> (controller_type: ControllerType)
    ensures
        controller_type == controller_type_of(vid@),
{
    if eq_ignore_ascii_case(vid, "045e") {
        ControllerType::Xbox
    } else if eq_ignore_ascii_case(vid, "054c") {
        ControllerType::PlayStation
    } else {
        ControllerType::Other
    }
}

/// Only the two vendor ids that stand for a family give one; whatever
/// differs from both gives no family.
pub proof fn lemma_other_vendors_have_no_family(vid: Seq<char>)
    requires
        !same_ignoring_ascii_case(vid, "045e"@),
        !same_ignoring_ascii_case(vid, "054c"@),
    ensures
        controller_type_of(vid) == ControllerType::Other,
{
}

/// The devices that are supported when no list of them has been stored.
pub open spec fn default_devices_spec() -> Seq<DeviceInfoView> {
    seq![
        listed("UNKNOWN CONTROLLER"@, "0000"@, ControllerType::Other),
        listed("Any Xbox Controller"@, "045e"@, ControllerType::Xbox),
        listed("DualShock 4 (PS4)"@, "054c"@, ControllerType::PlayStation),
        listed("DualSense (PS5)"@, "054c"@, ControllerType::PlayStation),
        listed("Switch Pro"@, "057e"@, ControllerType::Switch),
        listed("[ BETOP CONTROLLER ]"@, "20bc"@, ControllerType::Other),
    ]
}

/// The devices that are supported when no list of them has been stored. The
/// first of them stands for no device at all.
pub fn default_devices() -> (devices: Vec<DeviceInfo>)
    ensures
        device_views(devices@) == default_devices_spec(),
{
    let mut devices: Vec<DeviceInfo> = Vec::new();
    devices.push(
        DeviceInfo::new(
            String::from_str("UNKNOWN CONTROLLER"),
            String::from_str("0000"),
            ControllerType::Other,
        ),
    );
    devices.push(
        DeviceInfo::new(
            String::from_str("Any Xbox Controller"),
            String::from_str("045e"),
            ControllerType::Xbox,
        ),
    );
    devices.push(
        DeviceInfo::new(
            String::from_str("DualShock 4 (PS4)"),
            String::from_str("054c"),
            ControllerType::PlayStation,
        ),
    );
    devices.push(
        DeviceInfo::new(
            String::from_str("DualSense (PS5)"),
            String::from_str("054c"),
            ControllerType::PlayStation,
        ),
    );
    devices.push(
        DeviceInfo::new(
            String::from_str("Switch Pro"),
            String::from_str("057e"),
            ControllerType::Switch,
        ),
    );
    devices.push(
        DeviceInfo::new(
            String::from_str("[ BETOP CONTROLLER ]"),
            String::from_str("20bc"),
            ControllerType::Other,
        ),
    );
    assert(device_views(devices@) =~= default_devices_spec());
    devices
}

/// The stored list with the family of each device told anew from its vendor
/// id.
pub open spec fn redetected(devices: Seq<DeviceInfoView>) -> Seq<DeviceInfoView> {
    devices.map_values(
        |device: DeviceInfoView|
            DeviceInfoView { controller_type: controller_type_of(device.vendor_id), ..device },
    )
}

/// The list of supported devices: the stored list, where there is one that
/// could be read, with each family told anew from the vendor id; the default
/// devices otherwise.
pub fn load_or_create_config(stored: Option<Vec<DeviceInfo>>) -> (devices: Vec<DeviceInfo>)
    ensures
        stored matches Some(list) ==> device_views(devices@) == redetected(device_views(list@)),
        stored is None ==> device_views(devices@) == default_devices_spec(),
{
    match stored {
        Some(list) => {
            let mut devices: Vec<DeviceInfo> = Vec::new();
            let mut i: usize = 0;
            while i < list.len()
                invariant
                    i <= list.len(),
                    devices@.len() == i,
                    forall|k: int|
                        0 <= k < i ==> (#[trigger] devices@[k])@ == redetected(
                            device_views(list@),
                        )[k],
                decreases list.len() - i,
            {
                let mut device = list[i].duplicate();
                device.controller_type = detect_controller_type(device.vendor_id.as_str());
                devices.push(device);
                i += 1;
            }
            assert(device_views(devices@) =~= redetected(device_views(list@)));
            devices
        },
        None => default_devices(),
    }
}

/// The device that stands for no device at all: the first of the default
/// devices.
pub fn unknown_device() -> (device: DeviceInfo)
    ensures
        device@ == default_devices_spec()[0],
{
    DeviceInfo::new(
        String::from_str("UNKNOWN CONTROLLER"),
        String::from_str("0000"),
        ControllerType::Other,
    )
}

} // verus!
