use vstd::prelude::*;

verus! {

/// How an image may currently be accessed by the device.
#[derive(Clone, Copy, Debug, PartialEq, Eq, Structural)]
pub enum ImageLayout {
    /// Contents are undefined; transitioning out of it discards them.
    Undefined,
    TransferDst,
    ShaderReadOnly,
    ColorAttachment,
    General,
}

/// A pipeline stage that a barrier waits for or blocks.
#[derive(Clone, Copy, Debug, PartialEq, Eq, Structural)]
pub enum PipelineStage {
    TopOfPipe,
    Transfer,
    FragmentShader,
    ColorAttachmentOutput,
    AllCommands,
}

/// A kind of memory access that a barrier makes visible or waits for.
#[derive(Clone, Copy, Debug, PartialEq, Eq, Structural)]
pub enum Access {
    NoAccess,
    TransferWrite,
    ShaderRead,
    ColorAttachmentWrite,
    MemoryReadWrite,
}

/// An image layout transition with the stages and accesses it orders.
#[derive(Clone, Copy, Debug, PartialEq, Eq, Structural)]
pub struct Barrier {
    pub from: ImageLayout,
    pub to: ImageLayout,
    pub src_stage: PipelineStage,
    pub dst_stage: PipelineStage,
    pub src_access: Access,
    pub dst_access: Access,
}

/// The stage that uses an image held in layout `l`, and the access it makes there.
pub open spec fn usage_of(l: ImageLayout) -> (PipelineStage, Access) {
    match l {
        ImageLayout::Undefined => (PipelineStage::TopOfPipe, Access::NoAccess),
        ImageLayout::TransferDst => (PipelineStage::Transfer, Access::TransferWrite),
        ImageLayout::ShaderReadOnly => (PipelineStage::FragmentShader, Access::ShaderRead),
        ImageLayout::ColorAttachment => (PipelineStage::ColorAttachmentOutput, Access::ColorAttachmentWrite),
        ImageLayout::General => (PipelineStage::AllCommands, Access::MemoryReadWrite),
    }
}

/// The barrier for a transition from `from` to `to`.
pub open spec fn barrier_spec(from: ImageLayout, to: ImageLayout) -> Barrier {
    Barrier {
        from,
        to,
        src_stage: usage_of(from).0,
        dst_stage: usage_of(to).0,
        src_access: usage_of(from).1,
        dst_access: usage_of(to).1,
    }
}

fn usage(l: ImageLayout) -> (r: (PipelineStage, Access))
    ensures
        r == usage_of(l),
{
    match l {
        ImageLayout::Undefined => (PipelineStage::TopOfPipe, Access::NoAccess),
        ImageLayout::TransferDst => (PipelineStage::Transfer, Access::TransferWrite),
        ImageLayout::ShaderReadOnly => (PipelineStage::FragmentShader, Access::ShaderRead),
        ImageLayout::ColorAttachment => (PipelineStage::ColorAttachmentOutput, Access::ColorAttachmentWrite),
        ImageLayout::General => (PipelineStage::AllCommands, Access::MemoryReadWrite),
    }
}

/// Builds the barrier that moves an image from `from` to `to`: it waits for the stage
/// that last used the image in `from` and blocks the stage that first uses it in `to`.
pub fn barrier_between(from: ImageLayout, to: ImageLayout) -> (b: Barrier)
    ensures
        b == barrier_spec(from, to),
{
    let (src_stage, src_access) = usage(from);
    let (dst_stage, dst_access) = usage(to);
    Barrier { from, to, src_stage, dst_stage, src_access, dst_access }
}

} // verus!
