use pilka::ash_info::{self, vulkan_version_name};
use pilka::debug::{message_level, str_starts_with, MessageLevel};
use pilka::device_info::{self, device_type_name, vendor_name};
use pilka::text::decimal_string;
use pilka::wgpu_info::{self, backend_name, Backend, DeviceType};

#[test]
fn vendor_names() {
    assert_eq!(vendor_name(0x1002), "AMD");
    assert_eq!(vendor_name(0x1010), "ImgTec");
    assert_eq!(vendor_name(0x10DE), "NVIDIA Corporation");
    assert_eq!(vendor_name(0x13B5), "ARM");
    assert_eq!(vendor_name(0x5143), "Qualcomm");
    assert_eq!(vendor_name(0x8086), "INTEL Corporation");
    assert_eq!(vendor_name(0), "Unknown vendor");
}

#[test]
fn vulkan_device_type_names() {
    assert_eq!(device_type_name(0), "OTHER");
    assert_eq!(device_type_name(1), "INTEGRATED_GPU");
    assert_eq!(device_type_name(2), "DISCRETE_GPU");
    assert_eq!(device_type_name(3), "VIRTUAL_GPU");
    assert_eq!(device_type_name(4), "CPU");
    assert_eq!(device_type_name(17), "OTHER");
}

#[test]
fn wgpu_names() {
    assert_eq!(wgpu_info::device_type_name(DeviceType::IntegratedGpu), "Integrated GPU");
    assert_eq!(wgpu_info::device_type_name(DeviceType::Cpu), "CPU");
    assert_eq!(backend_name(Backend::Gl), "GL");
    assert_eq!(backend_name(Backend::BrowserWebGpu), "Browser WGPU");
    assert_eq!(backend_name(Backend::Vulkan), "Vulkan");
}

#[test]
fn renderer_info_display() {
    let info = device_info::renderer_info("Radeon", 2, 0x1002);
    assert_eq!(info.device_name, "Radeon");
    assert_eq!(
        info.to_display_string(),
        "Vendor name: AMD\nDevice name: Radeon\nDevice type: DISCRETE_GPU\n"
    );
}

#[test]
fn wgpu_renderer_info_display() {
    let info = wgpu_info::renderer_info("llvmpipe".to_string(), DeviceType::Cpu, 0x10005, Backend::Vulkan);
    assert_eq!(
        info.to_display_string(),
        "Vendor name: Unknown vendor\nDevice name: llvmpipe\nDevice type: CPU\nBackend: Vulkan\n"
    );
}

#[test]
fn vulkan_version_names() {
    assert_eq!(vulkan_version_name(None), "1.0.0");
    let v = (1u32 << 22) | (3 << 12) | 281;
    assert_eq!(vulkan_version_name(Some(v)), "1.3.281");
    assert_eq!(vulkan_version_name(Some(0)), "0.0.0");
    assert_eq!(vulkan_version_name(Some(u32::MAX)), "1023.1023.4095");
    let info = ash_info::renderer_info("GPU", 1, 0x8086, Some(v));
    assert_eq!(
        info.to_display_string(),
        "Vendor name: INTEL Corporation\nDevice name: GPU\nDevice type: INTEGRATED_GPU\nVulkan version: 1.3.281\n"
    );
}

#[test]
fn decimal_strings() {
    assert_eq!(decimal_string(0), "0");
    assert_eq!(decimal_string(10), "10");
    assert_eq!(decimal_string(u32::MAX), u32::MAX.to_string());
}

#[test]
fn debug_message_levels() {
    assert_eq!(message_level("Validation Performance Warning: slow"), MessageLevel::Ignored);
    assert_eq!(message_level("Validation Warning: [ VUID_Undefined ] x"), MessageLevel::Warning);
    assert_eq!(message_level("Validation Warning: [ VUID-xyz ]"), MessageLevel::Error);
    assert_eq!(message_level("Validation Error"), MessageLevel::Error);
    assert_eq!(message_level(""), MessageLevel::Error);
}

#[test]
fn starts_with_prefixes() {
    assert!(str_starts_with("abc", ""));
    assert!(str_starts_with("abc", "ab"));
    assert!(!str_starts_with("ab", "abc"));
    assert!(!str_starts_with("xbc", "ab"));
}
