//! Render-target and host-readback images: creation descriptions, layout
//! transition command plans, and the GPU-to-host readback pipeline ending
//! in PNG encoding.
//!
//! GPU work is modelled as explicit command lists over opaque image
//! handles; the caller that owns the device records and submits them. A
//! layout-tracking specification shows that every plan this module builds
//! respects image layout transitions.

use vstd::prelude::*;

verus! {

use crate::buffer::{get_memory_type_index, memory_type_suitable, MemoryTypeError};
use vstd::arithmetic::mul::{lemma_mul_inequality, lemma_mul_is_distributive_add_other_way};

/// Image usage bit: source of transfer commands.
pub const IMAGE_USAGE_TRANSFER_SRC: u32 = 0x1;

/// Image usage bit: destination of transfer commands.
pub const IMAGE_USAGE_TRANSFER_DST: u32 = 0x2;

/// Image usage bit: random-access storage target.
pub const IMAGE_USAGE_STORAGE: u32 = 0x8;

/// Image usage bit: color attachment.
pub const IMAGE_USAGE_COLOR_ATTACHMENT: u32 = 0x10;

/// Access bit: written by transfer commands.
pub const ACCESS_TRANSFER_WRITE: u32 = 0x1000;

/// Access bit: read by any memory access, including the host map.
pub const ACCESS_MEMORY_READ: u32 = 0x8000;

/// Pipeline stage bit: transfer commands.
pub const PIPELINE_STAGE_TRANSFER: u32 = 0x1000;

/// Pipeline stage bit: all commands.
pub const PIPELINE_STAGE_ALL_COMMANDS: u32 = 0x1_0000;

/// Image aspect bit: the color aspect.
pub const IMAGE_ASPECT_COLOR: u32 = 0x1;

/// Sample-count bit: single-sampled.
pub const SAMPLE_COUNT_1: u32 = 0x1;

/// How an image's texels are laid out in memory.
#[derive(Clone, Copy, Debug, PartialEq, Eq, Structural)]
pub enum ImageTiling {
    Optimal,
    Linear,
}

/// The image layouts this layer transitions between.
#[derive(Clone, Copy, Debug, PartialEq, Eq, Structural)]
pub enum ImageLayout {
    Undefined,
    General,
    TransferDstOptimal,
}

/// Everything image creation needs for the 2D, single-mip, single-layer
/// images of this layer.
#[derive(Clone, Copy, Debug, PartialEq, Eq, Structural)]
pub struct ImageDesc {
    pub width: u32,
    pub height: u32,
    pub format: i32,
    pub mip_levels: u32,
    pub array_layers: u32,
    pub sample_count: u32,
    pub tiling: ImageTiling,
    pub usage: u32,
    pub initial_layout: ImageLayout,
}

/// Describes the ray-tracing render target: 2D, single mip and layer,
/// non-multisampled, optimally tiled, usable at once as color attachment,
/// transfer source, transfer destination and storage target.
pub fn render_target_image_desc(width: u32, height: u32, format: i32) -> (r: ImageDesc)
    ensures
        r == (ImageDesc {
            width,
            height,
            format,
            mip_levels: 1,
            array_layers: 1,
            sample_count: SAMPLE_COUNT_1,
            tiling: ImageTiling::Optimal,
            usage: IMAGE_USAGE_COLOR_ATTACHMENT | IMAGE_USAGE_TRANSFER_DST | IMAGE_USAGE_STORAGE
                | IMAGE_USAGE_TRANSFER_SRC,
            initial_layout: ImageLayout::Undefined,
        }),
{
    ImageDesc {
        width,
        height,
        format,
        mip_levels: 1,
        array_layers: 1,
        sample_count: SAMPLE_COUNT_1,
        tiling: ImageTiling::Optimal,
        usage: IMAGE_USAGE_COLOR_ATTACHMENT | IMAGE_USAGE_TRANSFER_DST | IMAGE_USAGE_STORAGE
            | IMAGE_USAGE_TRANSFER_SRC,
        initial_layout: ImageLayout::Undefined,
    }
}

/// Describes the host-readback staging image: linearly tiled so the host
/// can address its rows, transfer destination only, starting undefined.
pub fn host_readback_image_desc(width: u32, height: u32, format: i32) -> (r: ImageDesc)
    ensures
        r == (ImageDesc {
            width,
            height,
            format,
            mip_levels: 1,
            array_layers: 1,
            sample_count: SAMPLE_COUNT_1,
            tiling: ImageTiling::Linear,
            usage: IMAGE_USAGE_TRANSFER_DST,
            initial_layout: ImageLayout::Undefined,
        }),
{
    ImageDesc {
        width,
        height,
        format,
        mip_levels: 1,
        array_layers: 1,
        sample_count: SAMPLE_COUNT_1,
        tiling: ImageTiling::Linear,
        usage: IMAGE_USAGE_TRANSFER_DST,
        initial_layout: ImageLayout::Undefined,
    }
}

/// The allocation request derived for one image.
#[derive(Clone, Copy, Debug, PartialEq, Eq, Structural)]
pub struct ImageAllocationPlan {
    pub allocation_size: u64,
    pub memory_type_index: u32,
}

/// Plans the memory allocation for an image: the requirements-reported
/// size, backed by the first memory type compatible with the requirement
/// bitmask and the desired properties.
pub fn plan_image_allocation(
    memory_type_flags: &Vec<u32>,
    desired_properties: u32,
    requirements_size: u64,
    requirements_type_bits: u32,
) -> (r: Result<ImageAllocationPlan, MemoryTypeError>)
    ensures
        match r {
            Ok(plan) => {
                &&& plan.allocation_size == requirements_size
                &&& memory_type_suitable(
                    memory_type_flags@,
                    requirements_type_bits,
                    desired_properties,
                    plan.memory_type_index as int,
                )
                &&& forall|j: int| 0 <= j < plan.memory_type_index
                    ==> !memory_type_suitable(
                        memory_type_flags@,
                        requirements_type_bits,
                        desired_properties,
                        j,
                    )
            },
            Err(e) => e == MemoryTypeError::NoCompatibleMemoryType
                && forall|j: int|
                    !memory_type_suitable(
                        memory_type_flags@,
                        requirements_type_bits,
                        desired_properties,
                        j,
                    ),
        },
{
    let memory_type_index = match get_memory_type_index(
        memory_type_flags,
        requirements_type_bits,
        desired_properties,
    ) {
        Ok(i) => i,
        Err(e) => {
            return Err(e);
        },
    };
    Ok(ImageAllocationPlan { allocation_size: requirements_size, memory_type_index })
}

/// One GPU render-target image, its backing device-local memory and its
/// full-color-aspect view; the handles are opaque values owned by their
/// creator. Destruction must release view, then image, then memory, in
/// that strict order, and only once the device is idle.
#[derive(Clone, Copy, Debug)]
pub struct RenderTargetImage {
    pub image: u64,
    pub memory: u64,
    pub view: u64,
}

/// One linearly tiled, host-visible staging image and its backing memory;
/// never sampled, only mapped, so it has no view. Its memory is host
/// coherent, so the host map needs no explicit flush.
#[derive(Clone, Copy, Debug)]
pub struct HostReadbackImage {
    pub image: u64,
    pub memory: u64,
}

/// A full-color-aspect barrier on one image's single mip level and layer.
#[derive(Clone, Copy, Debug, PartialEq, Eq, Structural)]
pub struct ImageMemoryBarrier {
    pub src_access_mask: u32,
    pub dst_access_mask: u32,
    pub old_layout: ImageLayout,
    pub new_layout: ImageLayout,
    pub image: u64,
    pub aspect_mask: u32,
}

/// One command recorded into a one-shot command buffer.
#[derive(Clone, Copy, Debug, PartialEq, Eq, Structural)]
pub enum GpuCommand {
    PipelineBarrier { src_stage_mask: u32, dst_stage_mask: u32, barrier: ImageMemoryBarrier },
    CopyImage {
        src_image: u64,
        src_layout: ImageLayout,
        dst_image: u64,
        dst_layout: ImageLayout,
        width: u32,
        height: u32,
    },
}

/// Whether one command respects `image` currently being in `layout`: a
/// barrier on it must name the current layout (or discard via undefined),
/// and a copy must name the current layout for whichever side it touches.
pub open spec fn command_layout_ok(layout: ImageLayout, c: GpuCommand, image: u64) -> bool {
    match c {
        GpuCommand::PipelineBarrier { barrier, .. } => barrier.image != image
            || barrier.old_layout == ImageLayout::Undefined || barrier.old_layout == layout,
        GpuCommand::CopyImage { src_image, src_layout, dst_image, dst_layout, .. } => {
            &&& (src_image != image || src_layout == layout)
            &&& (dst_image != image || dst_layout == layout)
        },
    }
}

/// The layout `image` is in after one command: barriers on it move it to
/// their new layout, everything else leaves it unchanged.
pub open spec fn layout_after_command(
    layout: ImageLayout,
    c: GpuCommand,
    image: u64,
) -> ImageLayout {
    match c {
        GpuCommand::PipelineBarrier { barrier, .. } => if barrier.image == image {
            barrier.new_layout
        } else {
            layout
        },
        GpuCommand::CopyImage { .. } => layout,
    }
}

/// Whether a command list respects layout transitions for `image`,
/// starting from `layout`.
pub open spec fn commands_layout_ok(
    commands: Seq<GpuCommand>,
    image: u64,
    layout: ImageLayout,
) -> bool
    decreases commands.len(),
{
    if commands.len() == 0 {
        true
    } else {
        &&& command_layout_ok(layout, commands[0], image)
        &&& commands_layout_ok(
            commands.skip(1),
            image,
            layout_after_command(layout, commands[0], image),
        )
    }
}

/// The layout `image` is in after a command list, starting from `layout`.
pub open spec fn layout_after_commands(
    commands: Seq<GpuCommand>,
    image: u64,
    layout: ImageLayout,
) -> ImageLayout
    decreases commands.len(),
{
    if commands.len() == 0 {
        layout
    } else {
        layout_after_commands(
            commands.skip(1),
            image,
            layout_after_command(layout, commands[0], image),
        )
    }
}

/// Plans the one-shot initialization transition of an image from the
/// undefined layout to the general layout: a single full pipeline barrier
/// with empty access masks, valid whatever layout the image starts in, and
/// leaving it in the general layout.
pub fn transition_image_to_general_commands(image: u64) -> (r: Vec<GpuCommand>)
    ensures
        r@.len() == 1,
        r@[0] == (GpuCommand::PipelineBarrier {
            src_stage_mask: PIPELINE_STAGE_ALL_COMMANDS,
            dst_stage_mask: PIPELINE_STAGE_ALL_COMMANDS,
            barrier: ImageMemoryBarrier {
                src_access_mask: 0,
                dst_access_mask: 0,
                old_layout: ImageLayout::Undefined,
                new_layout: ImageLayout::General,
                image,
                aspect_mask: IMAGE_ASPECT_COLOR,
            },
        }),
        forall|l: ImageLayout| commands_layout_ok(r@, image, l),
        forall|l: ImageLayout| layout_after_commands(r@, image, l) == ImageLayout::General,
{
    let mut commands: Vec<GpuCommand> = Vec::new();
    commands.push(GpuCommand::PipelineBarrier {
        src_stage_mask: PIPELINE_STAGE_ALL_COMMANDS,
        dst_stage_mask: PIPELINE_STAGE_ALL_COMMANDS,
        barrier: ImageMemoryBarrier {
            src_access_mask: 0,
            dst_access_mask: 0,
            old_layout: ImageLayout::Undefined,
            new_layout: ImageLayout::General,
            image,
            aspect_mask: IMAGE_ASPECT_COLOR,
        },
    });
    proof {
        let s = commands@;
        assert(s.skip(1) =~= Seq::<GpuCommand>::empty());
        assert forall|l: ImageLayout|
            commands_layout_ok(s, image, l) && layout_after_commands(s, image, l)
                == ImageLayout::General by {
            assert(command_layout_ok(l, s[0], image));
            let l1 = layout_after_command(l, s[0], image);
            assert(l1 == ImageLayout::General);
            assert(commands_layout_ok(s.skip(1), image, l1));
            assert(layout_after_commands(s.skip(1), image, l1) == l1);
        }
    }
    commands
}

/// Plans the GPU-to-host copy: transition the fresh staging image from
/// undefined to transfer-destination, copy the full extent from the source
/// (which must already be in the general layout), then transition the
/// staging image to the general layout with a memory-read destination
/// access so the subsequent host map observes ordered data.
pub fn copy_image_to_host_commands(
    src_image: u64,
    dst_image: u64,
    width: u32,
    height: u32,
) -> (r: Vec<GpuCommand>)
    requires
        src_image != dst_image,
    ensures
        r@.len() == 3,
        r@[0] == (GpuCommand::PipelineBarrier {
            src_stage_mask: PIPELINE_STAGE_TRANSFER,
            dst_stage_mask: PIPELINE_STAGE_TRANSFER,
            barrier: ImageMemoryBarrier {
                src_access_mask: 0,
                dst_access_mask: ACCESS_TRANSFER_WRITE,
                old_layout: ImageLayout::Undefined,
                new_layout: ImageLayout::TransferDstOptimal,
                image: dst_image,
                aspect_mask: IMAGE_ASPECT_COLOR,
            },
        }),
        r@[1] == (GpuCommand::CopyImage {
            src_image,
            src_layout: ImageLayout::General,
            dst_image,
            dst_layout: ImageLayout::TransferDstOptimal,
            width,
            height,
        }),
        r@[2] == (GpuCommand::PipelineBarrier {
            src_stage_mask: PIPELINE_STAGE_TRANSFER,
            dst_stage_mask: PIPELINE_STAGE_TRANSFER,
            barrier: ImageMemoryBarrier {
                src_access_mask: ACCESS_TRANSFER_WRITE,
                dst_access_mask: ACCESS_MEMORY_READ,
                old_layout: ImageLayout::TransferDstOptimal,
                new_layout: ImageLayout::General,
                image: dst_image,
                aspect_mask: IMAGE_ASPECT_COLOR,
            },
        }),
        commands_layout_ok(r@, dst_image, ImageLayout::Undefined),
        layout_after_commands(r@, dst_image, ImageLayout::Undefined) == ImageLayout::General,
        commands_layout_ok(r@, src_image, ImageLayout::General),
        layout_after_commands(r@, src_image, ImageLayout::General) == ImageLayout::General,
{
    let mut commands: Vec<GpuCommand> = Vec::new();
    commands.push(GpuCommand::PipelineBarrier {
        src_stage_mask: PIPELINE_STAGE_TRANSFER,
        dst_stage_mask: PIPELINE_STAGE_TRANSFER,
        barrier: ImageMemoryBarrier {
            src_access_mask: 0,
            dst_access_mask: ACCESS_TRANSFER_WRITE,
            old_layout: ImageLayout::Undefined,
            new_layout: ImageLayout::TransferDstOptimal,
            image: dst_image,
            aspect_mask: IMAGE_ASPECT_COLOR,
        },
    });
    commands.push(GpuCommand::CopyImage {
        src_image,
        src_layout: ImageLayout::General,
        dst_image,
        dst_layout: ImageLayout::TransferDstOptimal,
        width,
        height,
    });
    commands.push(GpuCommand::PipelineBarrier {
        src_stage_mask: PIPELINE_STAGE_TRANSFER,
        dst_stage_mask: PIPELINE_STAGE_TRANSFER,
        barrier: ImageMemoryBarrier {
            src_access_mask: ACCESS_TRANSFER_WRITE,
            dst_access_mask: ACCESS_MEMORY_READ,
            old_layout: ImageLayout::TransferDstOptimal,
            new_layout: ImageLayout::General,
            image: dst_image,
            aspect_mask: IMAGE_ASPECT_COLOR,
        },
    });
    proof {
        let s = commands@;
        let t1 = s.skip(1);
        let t2 = t1.skip(1);
        let t3 = t2.skip(1);
        assert(t3 =~= Seq::<GpuCommand>::empty());
        assert(t1[0] == s[1] && t2[0] == s[2] && t1.len() == 2 && t2.len() == 1);

        assert(commands_layout_ok(t3, dst_image, ImageLayout::General));
        assert(layout_after_commands(t3, dst_image, ImageLayout::General) == ImageLayout::General);
        assert(commands_layout_ok(t2, dst_image, ImageLayout::TransferDstOptimal));
        assert(layout_after_commands(t2, dst_image, ImageLayout::TransferDstOptimal)
            == ImageLayout::General);
        assert(commands_layout_ok(t1, dst_image, ImageLayout::TransferDstOptimal));
        assert(layout_after_commands(t1, dst_image, ImageLayout::TransferDstOptimal)
            == ImageLayout::General);
        assert(commands_layout_ok(s, dst_image, ImageLayout::Undefined));
        assert(layout_after_commands(s, dst_image, ImageLayout::Undefined)
            == ImageLayout::General);

        assert(commands_layout_ok(t3, src_image, ImageLayout::General));
        assert(layout_after_commands(t3, src_image, ImageLayout::General) == ImageLayout::General);
        assert(commands_layout_ok(t2, src_image, ImageLayout::General));
        assert(layout_after_commands(t2, src_image, ImageLayout::General) == ImageLayout::General);
        assert(commands_layout_ok(t1, src_image, ImageLayout::General));
        assert(layout_after_commands(t1, src_image, ImageLayout::General) == ImageLayout::General);
        assert(commands_layout_ok(s, src_image, ImageLayout::General));
        assert(layout_after_commands(s, src_image, ImageLayout::General) == ImageLayout::General);
    }
    commands
}

/// The packed pixel rows of a mapped linear image whose rows start
/// `row_pitch` bytes apart, in reverse row order: byte `b` of output row
/// `row` is byte `b` of source row `height - 1 - row`.
pub open spec fn spec_rows_bottom_up(
    data: Seq<u8>,
    row_pitch: int,
    width: int,
    height: int,
    bytes_per_pixel: int,
) -> Seq<u8> {
    let row_bytes = width * bytes_per_pixel;
    Seq::new(
        (height * row_bytes) as nat,
        |i: int| data[(height - 1 - i / row_bytes) * row_pitch + i % row_bytes],
    )
}

/// Walks a mapped linear image, whose rows start `row_pitch` bytes apart
/// (the pitch may exceed the packed row size due to implementation
/// padding), and returns the packed pixel rows in reverse row order: row 0
/// of the source is the last row of the result, matching a bottom-left
/// image-space origin.
#[verifier::loop_isolation(false)]
pub fn extract_rows_bottom_up(
    data: &Vec<u8>,
    row_pitch: usize,
    width: u32,
    height: u32,
    bytes_per_pixel: usize,
) -> (r: Vec<u8>)
    requires
        width * bytes_per_pixel <= row_pitch,
        height * row_pitch <= data@.len(),
    ensures
        r@ == spec_rows_bottom_up(
            data@,
            row_pitch as int,
            width as int,
            height as int,
            bytes_per_pixel as int,
        ),
        r@.len() == height * (width * bytes_per_pixel),
{
    let _data_len: usize = data.len();
    let row_bytes: usize = (width as usize) * bytes_per_pixel;
    let ghost target = spec_rows_bottom_up(
        data@,
        row_pitch as int,
        width as int,
        height as int,
        bytes_per_pixel as int,
    );
    proof {
        assert(target.len() == height * row_bytes);
    }
    let mut out: Vec<u8> = Vec::new();
    let mut k: u32 = 0;
    while k < height
        invariant
            k <= height,
            out@.len() == k * row_bytes,
            out@ == target.subrange(0, (k * row_bytes) as int),
        decreases height - k,
    {
        let src_row = height - 1 - k;
        proof {
            lemma_mul_inequality(src_row as int + 1, height as int, row_pitch as int);
            lemma_mul_is_distributive_add_other_way(row_pitch as int, src_row as int, 1);
            lemma_mul_inequality(k as int + 1, height as int, row_bytes as int);
            lemma_mul_is_distributive_add_other_way(row_bytes as int, k as int, 1);
        }
        let base: usize = (src_row as usize) * row_pitch;
        let mut b: usize = 0;
        while b < row_bytes
            invariant
                b <= row_bytes,
                k < height,
                src_row == height - 1 - k,
                base == src_row * row_pitch,
                base + row_bytes <= data@.len(),
                (k * row_bytes + row_bytes) as int <= target.len(),
                out@.len() == k * row_bytes + b,
                out@ == target.subrange(0, (k * row_bytes + b) as int),
            decreases row_bytes - b,
        {
            out.push(data[base + b]);
            proof {
                let i = k as int * row_bytes as int + b as int;
                vstd::arithmetic::div_mod::lemma_fundamental_div_mod_converse(
                    i,
                    row_bytes as int,
                    k as int,
                    b as int,
                );
                assert(target[i] == data@[base as int + b as int]);
                assert(out@ =~= target.subrange(0, i + 1));
            }
            b += 1;
        }
        k += 1;
    }
    proof {
        assert(out@ =~= target);
        vstd::arithmetic::mul::lemma_mul_is_associative(
            height as int,
            width as int,
            bytes_per_pixel as int,
        );
    }
    out
}

/// Dimensions and pixel-buffer length do not describe an encodable image.
#[derive(Clone, Copy, Debug, PartialEq, Eq, Structural)]
pub enum EncodeError {
    InvalidDimensions,
}

/// The PNG encoding of a tightly packed 8-bit RGBA image, as the encoder
/// with fixed settings produces it; a function of the dimensions and the
/// pixel bytes alone.
pub uninterp spec fn png_encoding_of(width: u32, height: u32, pixels: Seq<u8>) -> Seq<u8>;

/// Relies on png::Encoder and png::Writer::write_image_data: encodes an
/// 8-bit RGBA image of the given dimensions into an in-memory PNG byte
/// stream with fixed settings; the result depends on the dimensions and
/// the pixel bytes alone. With nonzero dimensions, the 8-bit RGBA
/// settings, a matching buffer length and an in-memory writer (which
/// cannot fail), every failure path of the encoder is unreachable, so the
/// call always returns the encoding.
#[verifier::external_body]
fn png_encode_rgba8(width: u32, height: u32, pixels: &Vec<u8>) -> (r: Vec<u8>)
    requires
        width > 0,
        height > 0,
        pixels@.len() == 4 * width * height,
    ensures
        r@ == png_encoding_of(width, height, pixels@),
{
    let mut out: Vec<u8> = Vec::new();
    let mut encoder = png::Encoder::new(&mut out, width, height);
    encoder.set_depth(png::BitDepth::Eight);
    encoder.set_color(png::ColorType::Rgba);
    let mut writer = encoder.write_header().expect("header for nonzero 8-bit RGBA dimensions");
    writer.write_image_data(pixels).expect("image data of the exact expected length");
    writer.finish().expect("flush into an in-memory writer");
    out
}

/// Encodes a tightly packed 8-bit RGBA pixel buffer as a PNG byte stream.
/// The dimensions must be nonzero and match the buffer length exactly,
/// else (and only then) the call is rejected.
pub fn encode_png_rgba8(width: u32, height: u32, pixels: &Vec<u8>) -> (r: Result<
    Vec<u8>,
    EncodeError,
>)
    ensures
        match r {
            Ok(v) => width > 0 && height > 0 && pixels@.len() == 4 * width * height && v@
                == png_encoding_of(width, height, pixels@),
            Err(e) => e == EncodeError::InvalidDimensions && (width == 0 || height == 0
                || pixels@.len() != 4 * width * height),
        },
        r is Ok <==> width > 0 && height > 0 && pixels@.len() == 4 * width * height,
{
    if width == 0 || height == 0 {
        return Err(EncodeError::InvalidDimensions);
    }
    proof {
        assert(4 * (width as int) * (height as int) < 0x8000_0000_0000_0000_0000) by (nonlinear_arith)
            requires
                width as int <= 0xffff_ffff,
                height as int <= 0xffff_ffff,
        ;
    }
    if pixels.len() as u128 != 4u128 * (width as u128) * (height as u128) {
        return Err(EncodeError::InvalidDimensions);
    }
    Ok(png_encode_rgba8(width, height, pixels))
}

} // verus!
