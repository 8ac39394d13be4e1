//! The summary of the device that the Vulkan renderer runs on, with the
//! Vulkan version of the instance.
use crate::device_info::{device_type_name, spec_device_type_name, spec_vendor_name, vendor_name};
use crate::text::{decimal, decimal_string};
use vstd::prelude::*;
use vstd::string::*;

verus! {

/// The major, minor and patch numbers packed in a Vulkan version number.
pub open spec fn version_parts(version: u32) -> (u32, u32, u32) {
    (version >> 22u32, (version >> 12u32) & 0x3ffu32, version & 0xfffu32)
}

/// The name of the Vulkan version that the loader reports, `1.0.0` where
/// it reports none.
pub open spec fn spec_vulkan_version_name(version: Option<u32>) -> Seq<char> {
    match version {
        Some(v) => {
            let (major, minor, patch) = version_parts(v);
            decimal(major as nat) + "."@ + decimal(minor as nat) + "."@ + decimal(patch as nat)
        },
        None => "1.0.0"@,
    }
}

/// The name of the Vulkan version that the loader reports, as
/// `major.minor.patch`, or `1.0.0` where it reports none.
pub fn vulkan_version_name(version: Option<u32>) -> (name: String)
    ensures
        name@ == spec_vulkan_version_name(version),
{
    match version {
        Some(version) => {
            let major = version >> 22u32;
            let minor = (version >> 12u32) & 0x3ffu32;
            let patch = version & 0xfffu32;
            let name = decimal_string(major);
            let name = name.concat(".");
            let name = name.concat(decimal_string(minor).as_str());
            let name = name.concat(".");
            name.concat(decimal_string(patch).as_str())
        },
        None => String::from_str("1.0.0"),
    }
}

/// What the device the Vulkan renderer runs on is, and which Vulkan version
/// the instance has.
#[derive(Debug)]
pub struct RendererInfo {
    pub device_name: String,
    pub device_type: String,
    pub vendor_name: String,
    pub vulkan_version_name: String,
}

impl RendererInfo {
    /// The summary as the renderer prints it: one line each for vendor,
    /// device name, device type and Vulkan version.
    pub fn to_display_string(&self) -> (text: String)
        ensures
            text@ == "Vendor name: "@ + self.vendor_name@ + "\n"@ + "Device name: "@
                + self.device_name@ + "\n"@ + "Device type: "@ + self.device_type@ + "\n"@
                + "Vulkan version: "@ + self.vulkan_version_name@ + "\n"@,
    {
        let text = String::from_str("Vendor name: ");
        let text = text.concat(self.vendor_name.as_str());
        let text = text.concat("\n");
        let text = text.concat("Device name: ");
        let text = text.concat(self.device_name.as_str());
        let text = text.concat("\n");
        let text = text.concat("Device type: ");
        let text = text.concat(self.device_type.as_str());
        let text = text.concat("\n");
        let text = text.concat("Vulkan version: ");
        let text = text.concat(self.vulkan_version_name.as_str());
        text.concat("\n")
    }
}

/// The summary of a Vulkan device with name `device_name`, physical device
/// type `device_type` and PCI vendor id `vendor_id`, on an instance whose
/// loader reports `version`.
pub fn renderer_info(device_name: &str, device_type: i32, vendor_id: u32, version: Option<u32>) -> (info: RendererInfo)
    ensures
        info.device_name@ == device_name@,
        info.device_type@ == spec_device_type_name(device_type),
        info.vendor_name@ == spec_vendor_name(vendor_id),
        info.vulkan_version_name@ == spec_vulkan_version_name(version),
{
    RendererInfo {
        device_name: String::from_str(device_name),
        device_type: String::from_str(device_type_name(device_type)),
        vendor_name: String::from_str(vendor_name(vendor_id)),
        vulkan_version_name: vulkan_version_name(version),
    }
}

} // verus!
