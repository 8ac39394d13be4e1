//! The decisions of frame capture and texture upload: the format, size and
//! memory of the images a frame is copied into, when they must grow, the
//! size of a read-back frame, and where each mip level of a texture lies in
//! its staging buffer.
use crate::align::align_up;
use crate::swapchain::Extent2D;
use crate::vk_utils::return_aligned;
use vstd::prelude::*;

verus! {

/// `VK_FORMAT_R8G8B8_UNORM`.
pub const FORMAT_R8G8B8_UNORM: i32 = 23;
/// `VK_FORMAT_R8G8B8A8_SNORM`.
pub const FORMAT_R8G8B8A8_SNORM: i32 = 38;
/// `VK_FORMAT_R8G8B8A8_USCALED`.
pub const FORMAT_R8G8B8A8_USCALED: i32 = 39;
/// `VK_FORMAT_R8G8B8A8_SSCALED`.
pub const FORMAT_R8G8B8A8_SSCALED: i32 = 40;
/// `VK_FORMAT_R8G8B8A8_UINT`.
pub const FORMAT_R8G8B8A8_UINT: i32 = 41;
/// `VK_FORMAT_R8G8B8A8_SINT`.
pub const FORMAT_R8G8B8A8_SINT: i32 = 42;
/// `VK_FORMAT_R8G8B8A8_SRGB`.
pub const FORMAT_R8G8B8A8_SRGB: i32 = 43;
/// `VK_FORMAT_B8G8R8A8_UNORM`.
pub const FORMAT_B8G8R8A8_UNORM: i32 = 44;
/// `VK_FORMAT_B8G8R8A8_SNORM`.
pub const FORMAT_B8G8R8A8_SNORM: i32 = 45;
/// `VK_FORMAT_B8G8R8A8_USCALED`.
pub const FORMAT_B8G8R8A8_USCALED: i32 = 46;
/// `VK_FORMAT_B8G8R8A8_SSCALED`.
pub const FORMAT_B8G8R8A8_SSCALED: i32 = 47;
/// `VK_FORMAT_B8G8R8A8_UINT`.
pub const FORMAT_B8G8R8A8_UINT: i32 = 48;
/// `VK_FORMAT_B8G8R8A8_SINT`.
pub const FORMAT_B8G8R8A8_SINT: i32 = 49;
/// `VK_FORMAT_B8G8R8A8_SRGB`.
pub const FORMAT_B8G8R8A8_SRGB: i32 = 50;

/// `VK_FORMAT_FEATURE_BLIT_DST_BIT`.
pub const FORMAT_FEATURE_BLIT_DST: u32 = 0x800;

/// `VK_MEMORY_PROPERTY_DEVICE_LOCAL_BIT`.
pub const MEMORY_DEVICE_LOCAL: u32 = 0x1;
/// `VK_MEMORY_PROPERTY_HOST_VISIBLE_BIT`.
pub const MEMORY_HOST_VISIBLE: u32 = 0x2;
/// `VK_MEMORY_PROPERTY_HOST_COHERENT_BIT`.
pub const MEMORY_HOST_COHERENT: u32 = 0x4;
/// `VK_MEMORY_PROPERTY_HOST_CACHED_BIT`.
pub const MEMORY_HOST_CACHED: u32 = 0x8;

/// Memory the CPU reads a captured frame from: host visible, cached and
/// coherent.
pub const MEMORY_HOST_READBACK: u32 = 0xe;

/// A width, height and depth in pixels.
#[derive(Debug, Clone, Copy, PartialEq, Eq, Structural)]
pub struct Extent3D {
    pub width: u32,
    pub height: u32,
    pub depth: u32,
}

/// The RGBA8 format a frame of the swapchain format `src_format` is copied
/// into: the BGRA8 formats map to their RGBA8 twins (but UNORM to
/// `R8G8B8_UNORM`), and every other format to `R8G8B8_UNORM`.
pub open spec fn spec_capture_format(src_format: i32) -> i32 {
    if src_format == FORMAT_B8G8R8A8_SRGB {
        FORMAT_R8G8B8A8_SRGB
    } else if src_format == FORMAT_B8G8R8A8_UINT {
        FORMAT_R8G8B8A8_UINT
    } else if src_format == FORMAT_B8G8R8A8_SINT {
        FORMAT_R8G8B8A8_SINT
    } else if src_format == FORMAT_B8G8R8A8_SNORM {
        FORMAT_R8G8B8A8_SNORM
    } else if src_format == FORMAT_B8G8R8A8_USCALED {
        FORMAT_R8G8B8A8_USCALED
    } else if src_format == FORMAT_B8G8R8A8_SSCALED {
        FORMAT_R8G8B8A8_SSCALED
    } else {
        FORMAT_R8G8B8_UNORM
    }
}

/// The format a frame of the swapchain format `src_format` is copied into.
pub fn capture_format(src_format: i32) -> (dst_format: i32)
    ensures
        dst_format == spec_capture_format(src_format),
{
    if src_format == FORMAT_B8G8R8A8_SRGB {
        FORMAT_R8G8B8A8_SRGB
    } else if src_format == FORMAT_B8G8R8A8_UNORM {
        FORMAT_R8G8B8_UNORM
    } else if src_format == FORMAT_B8G8R8A8_UINT {
        FORMAT_R8G8B8A8_UINT
    } else if src_format == FORMAT_B8G8R8A8_SINT {
        FORMAT_R8G8B8A8_SINT
    } else if src_format == FORMAT_B8G8R8A8_SNORM {
        FORMAT_R8G8B8A8_SNORM
    } else if src_format == FORMAT_B8G8R8A8_USCALED {
        FORMAT_R8G8B8A8_USCALED
    } else if src_format == FORMAT_B8G8R8A8_SSCALED {
        FORMAT_R8G8B8A8_SSCALED
    } else {
        FORMAT_R8G8B8_UNORM
    }
}

/// A frame goes through an intermediate image when the swapchain format can
/// be blitted into optimally tiled images but not into linear ones.
pub fn needs_two_step_blit(linear_features: u32, optimal_features: u32) -> (two_steps: bool)
    ensures
        two_steps == (linear_features & FORMAT_FEATURE_BLIT_DST != FORMAT_FEATURE_BLIT_DST
            && optimal_features & FORMAT_FEATURE_BLIT_DST == FORMAT_FEATURE_BLIT_DST),
{
    let blit_linear = linear_features & FORMAT_FEATURE_BLIT_DST == FORMAT_FEATURE_BLIT_DST;
    let blit_optimal = optimal_features & FORMAT_FEATURE_BLIT_DST == FORMAT_FEATURE_BLIT_DST;
    !blit_linear && blit_optimal
}

/// The images a frame is captured into: their size and format, the memory
/// of the image the frame lands in, and, where the frame goes through an
/// intermediate image, the memory of the image the CPU reads.
#[derive(Debug, Clone, Copy)]
pub struct CapturePlan {
    pub extent: Extent3D,
    pub format: i32,
    pub image_memory: u32,
    pub blit_memory: Option<u32>,
}

/// The capture size of a swapchain extent: the height rounded up to even.
pub open spec fn spec_capture_extent(extent: Extent2D) -> Extent3D {
    Extent3D { width: extent.width, height: align_up(extent.height as int, 2) as u32, depth: 1 }
}

/// Plans the capture images for a swapchain of `extent` and `src_format`:
/// with two steps the frame lands in device-local memory and is blitted
/// into a host-readable image, else it lands in host-readable memory
/// directly.
pub fn capture_plan(extent: Extent2D, src_format: i32, two_steps: bool) -> (plan: CapturePlan)
    requires
        align_up(extent.height as int, 2) <= u32::MAX,
    ensures
        plan.extent == spec_capture_extent(extent),
        plan.format == spec_capture_format(src_format),
        plan.image_memory == (if two_steps {
            MEMORY_DEVICE_LOCAL
        } else {
            MEMORY_HOST_READBACK
        }),
        plan.blit_memory == (if two_steps {
            Some(MEMORY_HOST_READBACK)
        } else {
            None
        }),
{
    let extent = Extent3D { width: extent.width, height: return_aligned(extent.height, 2), depth: 1 };
    let format = capture_format(src_format);
    if two_steps {
        CapturePlan {
            extent,
            format,
            image_memory: MEMORY_DEVICE_LOCAL,
            blit_memory: Some(MEMORY_HOST_READBACK),
        }
    } else {
        CapturePlan { extent, format, image_memory: MEMORY_HOST_READBACK, blit_memory: None }
    }
}

/// The new capture size when the frame size changes from `current` to
/// `requested` (height rounded up to even), or `None` when it is the same.
pub fn realloc_extent(current: Extent3D, requested: Extent3D) -> (new_extent: Option<Extent3D>)
    requires
        align_up(requested.height as int, 2) <= u32::MAX,
    ensures
        new_extent == (if current == requested {
            None
        } else {
            Some(
                Extent3D {
                    width: requested.width,
                    height: align_up(requested.height as int, 2) as u32,
                    depth: requested.depth,
                },
            )
        }),
{
    if current == requested {
        None
    } else {
        Some(
            Extent3D {
                width: requested.width,
                height: return_aligned(requested.height, 2),
                depth: requested.depth,
            },
        )
    }
}

/// The mapped bytes of `data_len` cannot hold an RGBA8 frame of `extent`.
pub fn needs_larger_buffer(extent: Extent3D, data_len: usize) -> (grow: bool)
    requires
        extent.width * extent.height * 4 <= u32::MAX,
    ensures
        grow == (extent.width * extent.height * 4 > data_len),
{
    assert(extent.width * extent.height <= u32::MAX) by (nonlinear_arith)
        requires
            extent.width * extent.height * 4 <= u32::MAX,
    ;
    let bytes = extent.width * extent.height * 4;
    bytes as usize > data_len
}

/// What a capture with a frame size that may have changed must redo: the
/// copy image is made anew when the size changed, and its host memory,
/// which holds `data_len` bytes, grows when the new image needs
/// `memory_size` bytes, more than that.
#[derive(Debug, Clone, Copy, PartialEq, Eq, Structural)]
pub struct CaptureRealloc {
    pub recreate_image: bool,
    pub grow_memory: bool,
}

/// What the capture into an image of `current` size must redo for a frame
/// of `requested` size, where a new image would need `memory_size` bytes
/// and the mapped memory holds `data_len`.
pub fn capture_realloc(current: Extent3D, requested: Extent3D, memory_size: u64, data_len: usize) -> (redo: CaptureRealloc)
    ensures
        redo.recreate_image == (current != requested),
        redo.grow_memory == (current != requested && memory_size as usize > data_len),
{
    if current != requested {
        CaptureRealloc { recreate_image: true, grow_memory: memory_size as usize > data_len }
    } else {
        CaptureRealloc { recreate_image: false, grow_memory: false }
    }
}

/// The width and height of a frame read back with rows of `row_pitch` bytes
/// and `size` bytes in all, as 32-bit numbers.
pub fn captured_size(row_pitch: u64, size: u64) -> (dims: (u32, u32))
    requires
        row_pitch > 0,
    ensures
        dims.0 == (row_pitch as u32) / 4,
        dims.1 == (size / row_pitch) as u32,
{
    (row_pitch as u32 / 4, (size / row_pitch) as u32)
}

/// Where one mip level of a texture is copied from its staging buffer.
#[derive(Debug, Clone, Copy, PartialEq, Eq, Structural)]
pub struct CopyRegion {
    pub mip_level: u32,
    pub width: u32,
    pub height: u32,
    pub buffer_offset: u64,
}

/// The side of mip level `level` of a side of `size` pixels: halved per
/// level, at least one.
pub open spec fn level_side(size: u32, level: u32) -> u32 {
    if size >> level < 1 {
        1
    } else {
        size >> level
    }
}

/// The sum of `sizes`.
pub open spec fn total(sizes: Seq<usize>) -> int
    decreases sizes.len(),
{
    if sizes.len() == 0 {
        0
    } else {
        total(sizes.drop_last()) + sizes.last()
    }
}

/// The copy region of mip level `level` of a `width` by `height` texture
/// whose levels take `level_sizes` bytes: it starts where the levels up to
/// and including `level` end.
pub open spec fn copy_region(width: u32, height: u32, level_sizes: Seq<usize>, level: u32) -> CopyRegion {
    CopyRegion {
        mip_level: level,
        width: level_side(width, level),
        height: level_side(height, level),
        buffer_offset: total(level_sizes.take(level + 1)) as u64,
    }
}

/// The sums of longer prefixes are no smaller.
proof fn lemma_total_prefix(sizes: Seq<usize>, i: int, j: int)
    requires
        0 <= i <= j <= sizes.len(),
    ensures
        total(sizes.take(i)) <= total(sizes.take(j)),
    decreases j - i,
{
    if i < j {
        lemma_total_prefix(sizes, i, j - 1);
        assert(sizes.take(j).drop_last() =~= sizes.take(j - 1));
    }
}

/// The copy regions of the first `mip_levels` levels of a `width` by
/// `height` texture whose levels take `level_sizes` bytes, in order.
pub fn texture_copy_regions(width: u32, height: u32, mip_levels: u32, level_sizes: &Vec<usize>) -> (regions: Vec<CopyRegion>)
    requires
        mip_levels <= 32,
        mip_levels <= level_sizes@.len(),
        total(level_sizes@) <= usize::MAX,
    ensures
        regions@.len() == mip_levels,
        forall|i: int|
            0 <= i < mip_levels ==> #[trigger] regions@[i] == copy_region(
                width,
                height,
                level_sizes@,
                i as u32,
            ),
{
    let mut ends: Vec<u64> = Vec::new();
    let mut sum: usize = 0;
    let mut k: usize = 0;
    while k < level_sizes.len()
        invariant
            k <= level_sizes@.len(),
            total(level_sizes@) <= usize::MAX,
            sum == total(level_sizes@.take(k as int)),
            ends@.len() == k,
            forall|j: int| 0 <= j < k ==> #[trigger] ends@[j] == total(level_sizes@.take(j + 1)),
        decreases level_sizes@.len() - k,
    {
        assert(level_sizes@.take(k + 1).drop_last() =~= level_sizes@.take(k as int));
        proof {
            lemma_total_prefix(level_sizes@, k + 1, level_sizes@.len() as int);
            assert(level_sizes@.take(level_sizes@.len() as int) =~= level_sizes@);
        }
        sum = sum + level_sizes[k];
        ends.push(sum as u64);
        k = k + 1;
    }
    let mut regions: Vec<CopyRegion> = Vec::new();
    let mut i: u32 = 0;
    while i < mip_levels
        invariant
            mip_levels <= 32,
            mip_levels <= ends@.len(),
            ends@.len() == level_sizes@.len(),
            forall|j: int|
                0 <= j < ends@.len() ==> #[trigger] ends@[j] == total(level_sizes@.take(j + 1)),
            i <= mip_levels,
            regions@.len() == i,
            forall|j: int|
                0 <= j < i ==> #[trigger] regions@[j] == copy_region(
                    width,
                    height,
                    level_sizes@,
                    j as u32,
                ),
        decreases mip_levels - i,
    {
        let w = width >> i;
        let h = height >> i;
        let region = CopyRegion {
            mip_level: i,
            width: if w < 1 { 1 } else { w },
            height: if h < 1 { 1 } else { h },
            buffer_offset: ends[i as usize],
        };
        regions.push(region);
        i = i + 1;
    }
    regions
}

} // verus!
