//! Names of GPU vendors, device types and backends, and the summary of the
//! device a renderer runs on.
use vstd::prelude::*;
use vstd::string::*;

verus! {

/// The name of the GPU vendor with PCI vendor id `vendor_id`.
pub open spec fn spec_vendor_name(vendor_id: u32) -> Seq<char> {
    if vendor_id == 0x1002 {
        "AMD"@
    } else if vendor_id == 0x1010 {
        "ImgTec"@
    } else if vendor_id == 0x10DE {
        "NVIDIA Corporation"@
    } else if vendor_id == 0x13B5 {
        "ARM"@
    } else if vendor_id == 0x5143 {
        "Qualcomm"@
    } else if vendor_id == 0x8086 {
        "INTEL Corporation"@
    } else {
        "Unknown vendor"@
    }
}

/// The name of the GPU vendor with PCI vendor id `vendor_id`.
pub fn vendor_name(vendor_id: u32) -> (name: &'static str)
    ensures
        name@ == spec_vendor_name(vendor_id),
{
    match vendor_id {
        0x1002 => "AMD",
        0x1010 => "ImgTec",
        0x10DE => "NVIDIA Corporation",
        0x13B5 => "ARM",
        0x5143 => "Qualcomm",
        0x8086 => "INTEL Corporation",
        _ => "Unknown vendor",
    }
}

/// `VkPhysicalDeviceType` values.
pub const PHYSICAL_DEVICE_TYPE_OTHER: i32 = 0;
pub const PHYSICAL_DEVICE_TYPE_INTEGRATED_GPU: i32 = 1;
pub const PHYSICAL_DEVICE_TYPE_DISCRETE_GPU: i32 = 2;
pub const PHYSICAL_DEVICE_TYPE_VIRTUAL_GPU: i32 = 3;
pub const PHYSICAL_DEVICE_TYPE_CPU: i32 = 4;

/// The name of the Vulkan physical device type `device_type`.
pub open spec fn spec_device_type_name(device_type: i32) -> Seq<char> {
    if device_type == PHYSICAL_DEVICE_TYPE_CPU {
        "CPU"@
    } else if device_type == PHYSICAL_DEVICE_TYPE_INTEGRATED_GPU {
        "INTEGRATED_GPU"@
    } else if device_type == PHYSICAL_DEVICE_TYPE_DISCRETE_GPU {
        "DISCRETE_GPU"@
    } else if device_type == PHYSICAL_DEVICE_TYPE_VIRTUAL_GPU {
        "VIRTUAL_GPU"@
    } else {
        "OTHER"@
    }
}

/// The name of the Vulkan physical device type `device_type`.
pub fn device_type_name(device_type: i32) -> (name: &'static str)
    ensures
        name@ == spec_device_type_name(device_type),
{
    match device_type {
        PHYSICAL_DEVICE_TYPE_CPU => "CPU",
        PHYSICAL_DEVICE_TYPE_INTEGRATED_GPU => "INTEGRATED_GPU",
        PHYSICAL_DEVICE_TYPE_DISCRETE_GPU => "DISCRETE_GPU",
        PHYSICAL_DEVICE_TYPE_VIRTUAL_GPU => "VIRTUAL_GPU",
        _ => "OTHER",
    }
}

/// What the device a renderer runs on is.
#[derive(Debug)]
pub struct RendererInfo {
    pub device_name: String,
    pub device_type: String,
    pub vendor_name: String,
}

impl RendererInfo {
    /// The summary as the renderer prints it: one line each for vendor,
    /// device name and device type.
    pub fn to_display_string(&self) -> (text: String)
        ensures
            text@ == "Vendor name: "@ + self.vendor_name@ + "\n"@ + "Device name: "@
                + self.device_name@ + "\n"@ + "Device type: "@ + self.device_type@ + "\n"@,
    {
        let text = String::from_str("Vendor name: ");
        let text = text.concat(self.vendor_name.as_str());
        let text = text.concat("\n");
        let text = text.concat("Device name: ");
        let text = text.concat(self.device_name.as_str());
        let text = text.concat("\n");
        let text = text.concat("Device type: ");
        let text = text.concat(self.device_type.as_str());
        text.concat("\n")
    }
}

/// The summary of a Vulkan device with name `device_name`, physical device
/// type `device_type` and PCI vendor id `vendor_id`.
pub fn renderer_info(device_name: &str, device_type: i32, vendor_id: u32) -> (info: RendererInfo)
    ensures
        info.device_name@ == device_name@,
        info.device_type@ == spec_device_type_name(device_type),
        info.vendor_name@ == spec_vendor_name(vendor_id),
{
    RendererInfo {
        device_name: String::from_str(device_name),
        device_type: String::from_str(device_type_name(device_type)),
        vendor_name: String::from_str(vendor_name(vendor_id)),
    }
}

} // verus!
