use vstd::prelude::*;

verus! {

/// Width and height of a surface or swapchain, in pixels.
#[derive(Debug, Clone, Copy, PartialEq, Eq, Structural)]
pub struct Extent {
    pub width: u32,
    pub height: u32,
}

impl Extent {
    pub open spec fn zero_area(self) -> bool {
        self.width == 0 || self.height == 0
    }

    pub fn is_zero_area(&self) -> (r: bool)
        ensures
            r == self.zero_area(),
    {
        self.width == 0 || self.height == 0
    }
}

/// Why a set of swapchain resources was refused.
#[derive(Debug, Clone, Copy, PartialEq, Eq, Structural)]
pub enum ResourceError {
    /// The image, view, framebuffer and command-buffer lists differ in length.
    LengthMismatch,
    /// The swapchain has no image.
    NoImages,
}

/// One step of tearing resources down, in the order the steps must run.
#[derive(Debug, Clone, Copy, PartialEq, Eq, Structural)]
pub enum Teardown {
    WaitIdle,
    DestroyFramebuffer(u64),
    FreeCommandBuffer(u64),
    DestroyPipeline,
    DestroyImageView(u64),
    DestroyDepthBuffer(u64),
    DestroySwapchain(u64),
    DestroySemaphore(u64),
    DestroyFence(u64),
    DestroyDevice,
}

/// What the command recorder fills for one swapchain image: the command
/// buffer bound to it and the framebuffer it draws into.
#[derive(Debug, Clone, Copy, PartialEq, Eq, Structural)]
pub struct RecordTarget {
    pub command_buffer: u64,
    pub framebuffer: u64,
    pub extent: Extent,
}

/// The content of a swapchain resource set.
pub ghost struct ResourceModel {
    pub swapchain: u64,
    pub images: Seq<u64>,
    pub views: Seq<u64>,
    pub framebuffers: Seq<u64>,
    pub command_buffers: Seq<u64>,
    pub depth_buffer: Option<u64>,
    pub extent: Extent,
}

impl ResourceModel {
    pub open spec fn image_count(self) -> nat {
        self.images.len()
    }

    /// One view, one framebuffer and one command buffer per image, and at
    /// least one image.
    pub open spec fn consistent(self) -> bool {
        &&& self.images.len() > 0
        &&& self.views.len() == self.images.len()
        &&& self.framebuffers.len() == self.images.len()
        &&& self.command_buffers.len() == self.images.len()
    }
}

pub open spec fn destroy_framebuffers(hs: Seq<u64>) -> Seq<Teardown> {
    hs.map_values(|h: u64| Teardown::DestroyFramebuffer(h))
}

pub open spec fn free_command_buffers(hs: Seq<u64>) -> Seq<Teardown> {
    hs.map_values(|h: u64| Teardown::FreeCommandBuffer(h))
}

pub open spec fn destroy_image_views(hs: Seq<u64>) -> Seq<Teardown> {
    hs.map_values(|h: u64| Teardown::DestroyImageView(h))
}

/// Teardown of a resource set: wait for the device to go idle, then destroy
/// consumers before what they consume.
pub open spec fn teardown_steps(m: ResourceModel) -> Seq<Teardown> {
    seq![Teardown::WaitIdle] + destroy_framebuffers(m.framebuffers) + free_command_buffers(
        m.command_buffers,
    ) + seq![Teardown::DestroyPipeline] + destroy_image_views(m.views) + match m.depth_buffer {
        Some(d) => seq![Teardown::DestroyDepthBuffer(d)],
        None => Seq::<Teardown>::empty(),
    } + seq![Teardown::DestroySwapchain(m.swapchain)]
}

/// The recorder's work: image `i`'s command buffer draws into image `i`'s
/// framebuffer.
pub open spec fn record_targets(m: ResourceModel) -> Seq<RecordTarget> {
    Seq::new(
        m.command_buffers.len(),
        |i: int|
            RecordTarget {
                command_buffer: m.command_buffers[i],
                framebuffer: m.framebuffers[i],
                extent: m.extent,
            },
    )
}

/// The swapchain and everything built on its images, replaced as one unit.
pub struct ResourceSet {
    swapchain: u64,
    images: Vec<u64>,
    views: Vec<u64>,
    framebuffers: Vec<u64>,
    command_buffers: Vec<u64>,
    depth_buffer: Option<u64>,
    extent: Extent,
}

impl View for ResourceSet {
    type V = ResourceModel;

    closed spec fn view(&self) -> ResourceModel {
        ResourceModel {
            swapchain: self.swapchain,
            images: self.images@,
            views: self.views@,
            framebuffers: self.framebuffers@,
            command_buffers: self.command_buffers@,
            depth_buffer: self.depth_buffer,
            extent: self.extent,
        }
    }
}

#[derive(Clone, Copy)]
enum HandleKind {
    Framebuffer,
    CommandBuffer,
    ImageView,
}

spec fn step_for(kind: HandleKind, h: u64) -> Teardown {
    match kind {
        HandleKind::Framebuffer => Teardown::DestroyFramebuffer(h),
        HandleKind::CommandBuffer => Teardown::FreeCommandBuffer(h),
        HandleKind::ImageView => Teardown::DestroyImageView(h),
    }
}

fn append_steps(out: &mut Vec<Teardown>, hs: &Vec<u64>, kind: HandleKind)
    ensures
        final(out)@ == old(out)@ + hs@.map_values(|h: u64| step_for(kind, h)),
{
    let ghost start = out@;
    let mut k: usize = 0;
    while k < hs.len()
        invariant
            k <= hs@.len(),
            out@ == start + hs@.subrange(0, k as int).map_values(|h: u64| step_for(kind, h)),
        decreases hs@.len() - k,
    {
        let step = match kind {
            HandleKind::Framebuffer => Teardown::DestroyFramebuffer(hs[k]),
            HandleKind::CommandBuffer => Teardown::FreeCommandBuffer(hs[k]),
            HandleKind::ImageView => Teardown::DestroyImageView(hs[k]),
        };
        out.push(step);
        proof {
            assert(hs@.subrange(0, k + 1).map_values(|h: u64| step_for(kind, h)) =~= hs@.subrange(
                0,
                k as int,
            ).map_values(|h: u64| step_for(kind, h)).push(step));
        }
        k = k + 1;
    }
    proof {
        assert(hs@.subrange(0, hs@.len() as int) =~= hs@);
    }
}

impl ResourceSet {
    /// Every resource set is consistent.
    #[verifier::type_invariant]
    pub open spec fn inv(self) -> bool {
        self@.consistent()
    }

    /// Bundles freshly built swapchain resources, refusing lists of unequal
    /// length or an empty swapchain.
    pub fn assemble(
        swapchain: u64,
        images: Vec<u64>,
        views: Vec<u64>,
        framebuffers: Vec<u64>,
        command_buffers: Vec<u64>,
        depth_buffer: Option<u64>,
        extent: Extent,
    ) -> (r: Result<ResourceSet, ResourceError>)
        ensures
            !(views@.len() == images@.len() && framebuffers@.len() == images@.len()
                && command_buffers@.len() == images@.len()) ==> r == Err::<
                ResourceSet,
                ResourceError,
            >(ResourceError::LengthMismatch),
            views@.len() == images@.len() && framebuffers@.len() == images@.len()
                && command_buffers@.len() == images@.len() && images@.len() == 0 ==> r == Err::<
                ResourceSet,
                ResourceError,
            >(ResourceError::NoImages),
            r is Ok <==> (views@.len() == images@.len() && framebuffers@.len() == images@.len()
                && command_buffers@.len() == images@.len() && images@.len() > 0),
            r is Ok ==> r->Ok_0@ == (ResourceModel {
                swapchain,
                images: images@,
                views: views@,
                framebuffers: framebuffers@,
                command_buffers: command_buffers@,
                depth_buffer,
                extent,
            }),
    {
        if views.len() != images.len() || framebuffers.len() != images.len()
            || command_buffers.len() != images.len() {
            return Err(ResourceError::LengthMismatch);
        }
        if images.len() == 0 {
            return Err(ResourceError::NoImages);
        }
        Ok(ResourceSet { swapchain, images, views, framebuffers, command_buffers, depth_buffer, extent })
    }

    pub fn image_count(&self) -> (r: usize)
        ensures
            r == self@.image_count(),
    {
        self.images.len()
    }

    pub fn swapchain(&self) -> (r: u64)
        ensures
            r == self@.swapchain,
    {
        self.swapchain
    }

    pub fn extent(&self) -> (r: Extent)
        ensures
            r == self@.extent,
    {
        self.extent
    }

    pub fn command_buffer(&self, image: usize) -> (r: u64)
        requires
            image < self@.image_count(),
        ensures
            r == self@.command_buffers[image as int],
    {
        proof {
            use_type_invariant(self);
        }
        self.command_buffers[image]
    }

    /// The ordered teardown of this set.
    pub fn teardown(&self) -> (r: Vec<Teardown>)
        ensures
            r@ == teardown_steps(self@),
    {
        let mut out: Vec<Teardown> = Vec::new();
        out.push(Teardown::WaitIdle);
        append_steps(&mut out, &self.framebuffers, HandleKind::Framebuffer);
        append_steps(&mut out, &self.command_buffers, HandleKind::CommandBuffer);
        out.push(Teardown::DestroyPipeline);
        append_steps(&mut out, &self.views, HandleKind::ImageView);
        match self.depth_buffer {
            Some(d) => out.push(Teardown::DestroyDepthBuffer(d)),
            None => {},
        }
        out.push(Teardown::DestroySwapchain(self.swapchain));
        proof {
            let m = self@;
            assert(self.framebuffers@.map_values(|h: u64| step_for(HandleKind::Framebuffer, h))
                =~= destroy_framebuffers(m.framebuffers));
            assert(self.command_buffers@.map_values(
                |h: u64| step_for(HandleKind::CommandBuffer, h),
            ) =~= free_command_buffers(m.command_buffers));
            assert(self.views@.map_values(|h: u64| step_for(HandleKind::ImageView, h))
                =~= destroy_image_views(m.views));
            assert(out@ =~= teardown_steps(m));
        }
        out
    }

    /// What the command recorder must fill, one entry per image, in image order.
    pub fn record_targets(&self) -> (r: Vec<RecordTarget>)
        ensures
            r@ == record_targets(self@),
    {
        proof {
            use_type_invariant(self);
        }
        let mut out: Vec<RecordTarget> = Vec::new();
        let mut i: usize = 0;
        while i < self.command_buffers.len()
            invariant
                self@.consistent(),
                i <= self.command_buffers@.len(),
                out@.len() == i,
                forall|k: int| 0 <= k < i ==> out@[k] == record_targets(self@)[k],
            decreases self.command_buffers@.len() - i,
        {
            out.push(
                RecordTarget {
                    command_buffer: self.command_buffers[i],
                    framebuffer: self.framebuffers[i],
                    extent: self.extent,
                },
            );
            i = i + 1;
        }
        proof {
            assert(out@ =~= record_targets(self@));
        }
        out
    }
}

} // verus!
