//! The logic of a shader live-coding tool: alignment of image rows and
//! dispatch sizes, the choice of GPU memory types, queue families and
//! swapchain settings, the command line, key handling and the playback
//! clock, and the handling of captured frames and shader folders.
use vstd::prelude::*;

pub mod align;
pub mod args;
pub mod ash_info;
pub mod backend;
pub mod capture;
pub mod debug;
pub mod device_info;
pub mod duration;
pub mod encoder;
pub mod frames;
pub mod image;
pub mod input;
pub mod memory;
pub mod queues;
pub mod screenshot;
pub mod session;
pub mod shaders;
pub mod swapchain;
pub mod text;
pub mod types;
pub mod vk_types;
pub mod vk_utils;
pub mod wgpu_info;

pub use align::{align_to, align_to_u32, dispatch_optimal};
pub use args::{parse_args, Args, ArgsError};
pub use image::ImageDimensions;
pub use input::Input;
pub use memory::find_memory_type_index;
pub use shaders::{FragmentShaderDesc, ShaderKind, ShaderSource, UserEvent};

verus! {

/// The folder the shaders are dumped into.
pub const SHADER_DUMP_FOLDER: &'static str = "shader_dump";

/// The folder the shaders are read from.
pub const SHADER_FOLDER: &'static str = "shaders";

/// The folder the videos are recorded into.
pub const VIDEO_FOLDER: &'static str = "recordings";

/// The folder the screenshots are saved into.
pub const SCREENSHOT_FOLDER: &'static str = "screenshots";

} // verus!
