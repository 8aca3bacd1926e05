//! Image layouts, the access masks of layout transitions and the flag
//! words that the recorded commands carry.
use vstd::prelude::*;

verus! {

/// Access mask bit: writes by transfer operations.
pub const ACCESS_TRANSFER_WRITE: u32 = 0x1000;

/// Access mask bit: reads by shaders.
pub const ACCESS_SHADER_READ: u32 = 0x20;

/// Pipeline stage bit: the top of the pipe.
pub const STAGE_TOP_OF_PIPE: u32 = 0x1;

/// Pipeline stage bit: vertex shading.
pub const STAGE_VERTEX_SHADER: u32 = 0x8;

/// Pipeline stage bit: fragment shading.
pub const STAGE_FRAGMENT_SHADER: u32 = 0x80;

/// Pipeline stage bit: colour attachment output.
pub const STAGE_COLOR_ATTACHMENT_OUTPUT: u32 = 0x400;

/// Pipeline stage bit: transfer operations.
pub const STAGE_TRANSFER: u32 = 0x1000;

/// Pipeline stage bit: every command.
pub const STAGE_ALL_COMMANDS: u32 = 0x10000;

/// The layout an image's memory is in, as the native API numbers it.
#[derive(Clone, Copy, Debug, PartialEq, Eq, Structural)]
pub enum ImageLayout {
    Undefined,
    General,
    ColorAttachmentOptimal,
    DepthStencilAttachmentOptimal,
    DepthStencilReadOnlyOptimal,
    ShaderReadOnlyOptimal,
    TransferSrcOptimal,
    TransferDstOptimal,
    Preinitialized,
    PresentSrc,
}

/// The native number of a layout.
pub open spec fn layout_raw(l: ImageLayout) -> i32 {
    match l {
        ImageLayout::Undefined => 0,
        ImageLayout::General => 1,
        ImageLayout::ColorAttachmentOptimal => 2,
        ImageLayout::DepthStencilAttachmentOptimal => 3,
        ImageLayout::DepthStencilReadOnlyOptimal => 4,
        ImageLayout::ShaderReadOnlyOptimal => 5,
        ImageLayout::TransferSrcOptimal => 6,
        ImageLayout::TransferDstOptimal => 7,
        ImageLayout::Preinitialized => 8,
        ImageLayout::PresentSrc => 1000001002,
    }
}

impl ImageLayout {
    /// The native number of this layout.
    pub fn raw(self) -> (r: i32)
        ensures
            r == layout_raw(self),
    {
        match self {
            ImageLayout::Undefined => 0,
            ImageLayout::General => 1,
            ImageLayout::ColorAttachmentOptimal => 2,
            ImageLayout::DepthStencilAttachmentOptimal => 3,
            ImageLayout::DepthStencilReadOnlyOptimal => 4,
            ImageLayout::ShaderReadOnlyOptimal => 5,
            ImageLayout::TransferSrcOptimal => 6,
            ImageLayout::TransferDstOptimal => 7,
            ImageLayout::Preinitialized => 8,
            ImageLayout::PresentSrc => 1000001002,
        }
    }

    /// The layout with the given native number, if the library knows it.
    pub fn from_raw(raw: i32) -> (r: Option<ImageLayout>)
        ensures
            r matches Some(l) ==> layout_raw(l) == raw,
            r is None <==> (forall|l: ImageLayout| layout_raw(l) != raw),
    {
        let r = if raw == 0 {
            Some(ImageLayout::Undefined)
        } else if raw == 1 {
            Some(ImageLayout::General)
        } else if raw == 2 {
            Some(ImageLayout::ColorAttachmentOptimal)
        } else if raw == 3 {
            Some(ImageLayout::DepthStencilAttachmentOptimal)
        } else if raw == 4 {
            Some(ImageLayout::DepthStencilReadOnlyOptimal)
        } else if raw == 5 {
            Some(ImageLayout::ShaderReadOnlyOptimal)
        } else if raw == 6 {
            Some(ImageLayout::TransferSrcOptimal)
        } else if raw == 7 {
            Some(ImageLayout::TransferDstOptimal)
        } else if raw == 8 {
            Some(ImageLayout::Preinitialized)
        } else if raw == 1000001002 {
            Some(ImageLayout::PresentSrc)
        } else {
            None
        };
        proof {
            if r is None {
                assert forall|l: ImageLayout| layout_raw(l) != raw by {
                    match l {
                        _ => {},
                    }
                }
            }
        }
        r
    }
}

/// The access masks that a layout transition makes visible: the accesses
/// to wait for and the accesses that must wait.
#[derive(Clone, Copy, Debug, PartialEq, Eq, Structural)]
pub struct AccessMasks {
    pub src: u32,
    pub dst: u32,
}

/// The table of the transitions that a barrier may record, with their masks.
/// Any pair that is not listed is not a transition the library records.
pub open spec fn transition_masks(old: ImageLayout, new: ImageLayout) -> Option<AccessMasks> {
    if old == ImageLayout::Undefined && new == ImageLayout::TransferDstOptimal {
        Some(AccessMasks { src: 0, dst: ACCESS_TRANSFER_WRITE })
    } else if old == ImageLayout::TransferDstOptimal && new == ImageLayout::ShaderReadOnlyOptimal {
        Some(AccessMasks { src: ACCESS_TRANSFER_WRITE, dst: ACCESS_SHADER_READ })
    } else {
        None
    }
}

/// Looks a transition up in the table of transitions.
pub fn barrier_access_masks(old: ImageLayout, new: ImageLayout) -> (r: Option<AccessMasks>)
    ensures
        r == transition_masks(old, new),
{
    match (old, new) {
        (ImageLayout::Undefined, ImageLayout::TransferDstOptimal) => Some(
            AccessMasks { src: 0, dst: ACCESS_TRANSFER_WRITE },
        ),
        (ImageLayout::TransferDstOptimal, ImageLayout::ShaderReadOnlyOptimal) => Some(
            AccessMasks { src: ACCESS_TRANSFER_WRITE, dst: ACCESS_SHADER_READ },
        ),
        _ => None,
    }
}

} // verus!
