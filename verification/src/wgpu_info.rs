//! The summary of the adapter that the wgpu renderer runs on.
use crate::device_info::{spec_vendor_name, vendor_name};
use vstd::prelude::*;
use vstd::string::*;

verus! {

/// The kind of device behind a wgpu adapter.
#[derive(Debug, Clone, Copy, PartialEq, Eq, Structural)]
pub enum DeviceType {
    Other,
    IntegratedGpu,
    DiscreteGpu,
    VirtualGpu,
    Cpu,
}

/// The graphics API behind a wgpu adapter.
#[derive(Debug, Clone, Copy, PartialEq, Eq, Structural)]
pub enum Backend {
    Empty,
    Vulkan,
    Metal,
    Dx12,
    Dx11,
    Gl,
    BrowserWebGpu,
}

/// The name of the device kind `device_type`.
pub open spec fn spec_device_type_name(device_type: DeviceType) -> Seq<char> {
    match device_type {
        DeviceType::Other => "Other"@,
        DeviceType::IntegratedGpu => "Integrated GPU"@,
        DeviceType::DiscreteGpu => "Discrete GPU"@,
        DeviceType::VirtualGpu => "Virtual GPU"@,
        DeviceType::Cpu => "CPU"@,
    }
}

/// The name of the device kind `device_type`.
pub fn device_type_name(device_type: DeviceType) -> (name: &'static str)
    ensures
        name@ == spec_device_type_name(device_type),
{
    match device_type {
        DeviceType::Other => "Other",
        DeviceType::IntegratedGpu => "Integrated GPU",
        DeviceType::DiscreteGpu => "Discrete GPU",
        DeviceType::VirtualGpu => "Virtual GPU",
        DeviceType::Cpu => "CPU",
    }
}

/// The name of the graphics API `backend`.
pub open spec fn spec_backend_name(backend: Backend) -> Seq<char> {
    match backend {
        Backend::Empty => "Empty"@,
        Backend::Vulkan => "Vulkan"@,
        Backend::Metal => "Metal"@,
        Backend::Dx12 => "Dx12"@,
        Backend::Dx11 => "Dx11"@,
        Backend::Gl => "GL"@,
        Backend::BrowserWebGpu => "Browser WGPU"@,
    }
}

/// The name of the graphics API `backend`.
pub fn backend_name(backend: Backend) -> (name: &'static str)
    ensures
        name@ == spec_backend_name(backend),
{
    match backend {
        Backend::Empty => "Empty",
        Backend::Vulkan => "Vulkan",
        Backend::Metal => "Metal",
        Backend::Dx12 => "Dx12",
        Backend::Dx11 => "Dx11",
        Backend::Gl => "GL",
        Backend::BrowserWebGpu => "Browser WGPU",
    }
}

/// What the adapter the wgpu renderer runs on is.
#[derive(Debug)]
pub struct RendererInfo {
    pub device_name: String,
    pub device_type: String,
    pub vendor_name: String,
    pub backend: String,
}

impl RendererInfo {
    /// The summary as the renderer prints it: one line each for vendor,
    /// device name, device type and backend.
    pub fn to_display_string(&self) -> (text: String)
        ensures
            text@ == "Vendor name: "@ + self.vendor_name@ + "\n"@ + "Device name: "@
                + self.device_name@ + "\n"@ + "Device type: "@ + self.device_type@ + "\n"@
                + "Backend: "@ + self.backend@ + "\n"@,
    {
        let text = String::from_str("Vendor name: ");
        let text = text.concat(self.vendor_name.as_str());
        let text = text.concat("\n");
        let text = text.concat("Device name: ");
        let text = text.concat(self.device_name.as_str());
        let text = text.concat("\n");
        let text = text.concat("Device type: ");
        let text = text.concat(self.device_type.as_str());
        let text = text.concat("\n");
        let text = text.concat("Backend: ");
        let text = text.concat(self.backend.as_str());
        text.concat("\n")
    }
}

/// The summary of an adapter named `device_name` of kind `device_type`, from
/// PCI vendor `vendor_id`, behind `backend`.
pub fn renderer_info(device_name: String, device_type: DeviceType, vendor_id: u32, backend: Backend) -> (info: RendererInfo)
    ensures
        info.device_name@ == device_name@,
        info.device_type@ == spec_device_type_name(device_type),
        info.vendor_name@ == spec_vendor_name(vendor_id),
        info.backend@ == spec_backend_name(backend),
{
    RendererInfo {
        device_name,
        device_type: String::from_str(device_type_name(device_type)),
        vendor_name: String::from_str(vendor_name(vendor_id)),
        backend: String::from_str(backend_name(backend)),
    }
}

} // verus!
