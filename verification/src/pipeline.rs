//! The fixed graphics-pipeline configuration: what the one pipeline of
//! this renderer always asks of the device, as plain values the shell
//! translates into its device structures.

use vstd::prelude::*;

verus! {

/// How primitives are assembled.
#[derive(Clone, Copy, Debug, PartialEq, Eq, Structural)]
pub enum Topology {
    TriangleList,
}

/// Which side of a triangle is discarded.
#[derive(Clone, Copy, Debug, PartialEq, Eq, Structural)]
pub enum Culling {
    Back,
}

/// Which winding counts as a triangle's front face.
#[derive(Clone, Copy, Debug, PartialEq, Eq, Structural)]
pub enum Winding {
    CounterClockwise,
}

/// A blending factor, as the fixed blend equation names them.
#[derive(Clone, Copy, Debug, PartialEq, Eq, Structural)]
pub enum BlendFactorKind {
    One,
    SrcAlpha,
    OneMinusSrcAlpha,
}

/// The blend equation of the color attachment: source and destination
/// factors for the color and alpha channels, both combined by addition.
#[derive(Clone, Copy, Debug, PartialEq, Eq, Structural)]
pub struct BlendConfig {
    pub src_color: BlendFactorKind,
    pub dst_color: BlendFactorKind,
    pub src_alpha: BlendFactorKind,
    pub dst_alpha: BlendFactorKind,
}

/// The whole fixed configuration of the chunk pipeline: triangle lists,
/// back-face culling against counter-clockwise front faces — matching
/// the winding the mesher emits — one viewport covering the surface,
/// standard non-premultiplied alpha blending, and a depth test exactly
/// when the render pass carries a depth attachment.
#[derive(Clone, Copy, Debug, PartialEq, Eq, Structural)]
pub struct PipelineConfig {
    pub topology: Topology,
    pub cull_mode: Culling,
    pub front_face: Winding,
    pub viewport_width: u32,
    pub viewport_height: u32,
    pub blend: BlendConfig,
    pub depth_test: bool,
}

/// Standard non-premultiplied alpha blending: the fragment weighted by
/// its alpha over the target weighted by the remainder.
pub open spec fn spec_alpha_blend() -> BlendConfig {
    BlendConfig {
        src_color: BlendFactorKind::SrcAlpha,
        dst_color: BlendFactorKind::OneMinusSrcAlpha,
        src_alpha: BlendFactorKind::One,
        dst_alpha: BlendFactorKind::OneMinusSrcAlpha,
    }
}

/// The configuration for a render target of the given extent; nothing
/// in it varies but the viewport and the presence of the depth test.
pub fn pipeline_config(width: u32, height: u32, has_depth_attachment: bool) -> (c: PipelineConfig)
    ensures
        c == (PipelineConfig {
            topology: Topology::TriangleList,
            cull_mode: Culling::Back,
            front_face: Winding::CounterClockwise,
            viewport_width: width,
            viewport_height: height,
            blend: spec_alpha_blend(),
            depth_test: has_depth_attachment,
        }),
{
    PipelineConfig {
        topology: Topology::TriangleList,
        cull_mode: Culling::Back,
        front_face: Winding::CounterClockwise,
        viewport_width: width,
        viewport_height: height,
        blend: BlendConfig {
            src_color: BlendFactorKind::SrcAlpha,
            dst_color: BlendFactorKind::OneMinusSrcAlpha,
            src_alpha: BlendFactorKind::One,
            dst_alpha: BlendFactorKind::OneMinusSrcAlpha,
        },
        depth_test: has_depth_attachment,
    }
}

/// What happens to an attachment's contents when a pass begins.
#[derive(Clone, Copy, Debug, PartialEq, Eq, Structural)]
pub enum LoadOp {
    Clear,
}

/// What happens to an attachment's contents when a pass ends.
#[derive(Clone, Copy, Debug, PartialEq, Eq, Structural)]
pub enum StoreOp {
    Store,
    Discard,
}

/// One attachment of the render pass: its format code, and how its
/// contents are treated around the pass.
#[derive(Clone, Copy, Debug, PartialEq, Eq, Structural)]
pub struct AttachmentConfig {
    pub format: u32,
    pub load_op: LoadOp,
    pub store_op: StoreOp,
}

/// The render pass this renderer draws with: a color attachment in the
/// surface's format, cleared then stored for presentation, and — in the
/// depth variant — a depth attachment, cleared and discarded after the
/// pass.
#[derive(Clone, Copy, Debug, PartialEq, Eq, Structural)]
pub struct RenderPassConfig {
    pub color: AttachmentConfig,
    pub depth: Option<AttachmentConfig>,
}

/// The depth format code the shell assigns to its 32-bit float depth
/// images.
pub const FORMAT_D32_SFLOAT: u32 = 126;

/// The render-pass configuration for a surface of the given color
/// format, with or without the depth attachment.
pub fn render_pass_config(color_format: u32, with_depth: bool) -> (c: RenderPassConfig)
    ensures
        c.color == (AttachmentConfig {
            format: color_format,
            load_op: LoadOp::Clear,
            store_op: StoreOp::Store,
        }),
        with_depth ==> c.depth == Some(
            AttachmentConfig {
                format: FORMAT_D32_SFLOAT,
                load_op: LoadOp::Clear,
                store_op: StoreOp::Discard,
            },
        ),
        !with_depth ==> c.depth is None,
{
    RenderPassConfig {
        color: AttachmentConfig {
            format: color_format,
            load_op: LoadOp::Clear,
            store_op: StoreOp::Store,
        },
        depth: if with_depth {
            Some(
                AttachmentConfig {
                    format: FORMAT_D32_SFLOAT,
                    load_op: LoadOp::Clear,
                    store_op: StoreOp::Discard,
                },
            )
        } else {
            Option::None
        },
    }
}

} // verus!
