//! The surface context: bookkeeping for the GPU device, presentation
//! surface and swapchain bound to one window.
//!
//! The GPU API itself is driven outside the library; this type carries
//! the decisions that make its use correct — which queue family to pick,
//! when a swapchain must be rebuilt and when it must not, and that
//! teardown happens once and is safe to repeat. The swapchain generation
//! counts every rebuild, so a resize to the active extent is observably
//! a no-op.

use vstd::prelude::*;

use crate::config::{ViewportError, MAX_DIMENSION};

verus! {

/// Bit a queue family's flags carry when it supports graphics work.
pub const GRAPHICS_QUEUE_BIT: u32 = 0x1;

/// How many images the swapchain rotates through.
pub const SWAPCHAIN_IMAGE_COUNT: u32 = 2;

/// What a surface creation amounts to once the platform objects exist:
/// the queue family to build the device around and the extent and image
/// count of the initial swapchain.
#[derive(Clone, Copy, Debug, PartialEq, Eq, Structural)]
pub struct SurfaceCreationPlan {
    pub queue_family_index: u32,
    pub width: u32,
    pub height: u32,
    pub image_count: u32,
}

/// The state of one device/surface/swapchain pairing, owned exclusively
/// by the render loop.
#[derive(Clone, Copy, Debug)]
pub struct SurfaceContext {
    width: u32,
    height: u32,
    queue_family_index: u32,
    swapchain_generation: u64,
    torn_down: bool,
}

/// Index of the first queue family whose flags mark it graphics-capable,
/// or `None` when no family does.
pub open spec fn first_graphics_family(flags: Seq<u32>) -> Option<int> {
    if exists|i: int| 0 <= i < flags.len() && flags[i] & GRAPHICS_QUEUE_BIT != 0 {
        Some(
            choose|i: int|
                0 <= i < flags.len() && flags[i] & GRAPHICS_QUEUE_BIT != 0 && forall|j: int|
                    0 <= j < i ==> flags[j] & GRAPHICS_QUEUE_BIT == 0,
        )
    } else {
        None
    }
}

/// Selects the first queue family exposing graphics support, the same
/// choice the device construction makes.
pub fn select_graphics_queue_family(queue_flags: &Vec<u32>) -> (r: Option<usize>)
    ensures
        r matches Some(i) ==> {
            &&& i < queue_flags@.len()
            &&& queue_flags@[i as int] & GRAPHICS_QUEUE_BIT != 0
            &&& forall|j: int| 0 <= j < i ==> queue_flags@[j] & GRAPHICS_QUEUE_BIT == 0
        },
        r is None ==> forall|j: int|
            0 <= j < queue_flags@.len() ==> queue_flags@[j] & GRAPHICS_QUEUE_BIT == 0,
{
    let mut i: usize = 0;
    while i < queue_flags.len()
        invariant
            i <= queue_flags@.len(),
            forall|j: int| 0 <= j < i ==> queue_flags@[j] & GRAPHICS_QUEUE_BIT == 0,
        decreases queue_flags@.len() - i,
    {
        if queue_flags[i] & GRAPHICS_QUEUE_BIT != 0 {
            return Some(i);
        }
        i = i + 1;
    }
    None
}

/// Decides whether a surface can be created from what the platform
/// reports — the queue families' flags, how many surface formats and
/// present modes are compatible, and the surface's current extent — and
/// if so with what parameters. Fails with `DeviceUnavailable` when no
/// queue family is graphics-capable, and with `SwapchainCreationFailed`
/// when no format or no present mode exists or the extent is unusable.
pub fn plan_surface_creation(
    queue_flags: &Vec<u32>,
    format_count: usize,
    present_mode_count: usize,
    extent_width: u32,
    extent_height: u32,
) -> (r: Result<SurfaceCreationPlan, ViewportError>)
    requires
        queue_flags@.len() <= u32::MAX,
    ensures
        r matches Ok(plan) ==> {
            &&& exists|i: int|
                0 <= i < queue_flags@.len() && queue_flags@[i] & GRAPHICS_QUEUE_BIT != 0
            &&& plan.queue_family_index < queue_flags@.len()
            &&& queue_flags@[plan.queue_family_index as int] & GRAPHICS_QUEUE_BIT != 0
            &&& forall|j: int|
                0 <= j < plan.queue_family_index ==> queue_flags@[j] & GRAPHICS_QUEUE_BIT == 0
            &&& format_count > 0
            &&& present_mode_count > 0
            &&& plan.width == extent_width
            &&& plan.height == extent_height
            &&& 1 <= extent_width <= MAX_DIMENSION
            &&& 1 <= extent_height <= MAX_DIMENSION
            &&& plan.image_count == SWAPCHAIN_IMAGE_COUNT
        },
        r == Err::<SurfaceCreationPlan, ViewportError>(ViewportError::DeviceUnavailable) <==> forall|
            j: int,
        |
            0 <= j < queue_flags@.len() ==> queue_flags@[j] & GRAPHICS_QUEUE_BIT == 0,
        r == Err::<SurfaceCreationPlan, ViewportError>(ViewportError::SwapchainCreationFailed)
            <==> {
            &&& exists|i: int|
                0 <= i < queue_flags@.len() && queue_flags@[i] & GRAPHICS_QUEUE_BIT != 0
            &&& (format_count == 0 || present_mode_count == 0 || !(1 <= extent_width
                <= MAX_DIMENSION) || !(1 <= extent_height <= MAX_DIMENSION))
        },
        r is Ok <==> {
            &&& exists|i: int|
                0 <= i < queue_flags@.len() && queue_flags@[i] & GRAPHICS_QUEUE_BIT != 0
            &&& format_count > 0
            &&& present_mode_count > 0
            &&& 1 <= extent_width <= MAX_DIMENSION
            &&& 1 <= extent_height <= MAX_DIMENSION
        },
{
    let family = match select_graphics_queue_family(queue_flags) {
        Some(i) => i,
        None => {
            return Err(ViewportError::DeviceUnavailable);
        },
    };
    if format_count == 0 || present_mode_count == 0 || extent_width < 1 || extent_width
        > MAX_DIMENSION || extent_height < 1 || extent_height > MAX_DIMENSION {
        return Err(ViewportError::SwapchainCreationFailed);
    }
    Ok(
        SurfaceCreationPlan {
            queue_family_index: family as u32,
            width: extent_width,
            height: extent_height,
            image_count: SWAPCHAIN_IMAGE_COUNT,
        },
    )
}

impl SurfaceContext {
    /// The extent the swapchain is currently built for stays within what
    /// a surface accepts.
    pub open spec fn wf(self) -> bool {
        &&& 1 <= self.spec_width() <= MAX_DIMENSION
        &&& 1 <= self.spec_height() <= MAX_DIMENSION
        &&& self.spec_generation() >= 1
    }

    pub closed spec fn spec_width(self) -> u32 {
        self.width
    }

    pub closed spec fn spec_height(self) -> u32 {
        self.height
    }

    pub closed spec fn spec_queue_family(self) -> u32 {
        self.queue_family_index
    }

    /// How many swapchains have been built for this surface so far,
    /// counting the initial one.
    pub closed spec fn spec_generation(self) -> u64 {
        self.swapchain_generation
    }

    /// Whether the context's GPU resources have been released.
    pub closed spec fn spec_torn_down(self) -> bool {
        self.torn_down
    }

    /// A context freshly created from a creation plan, with its initial
    /// swapchain built: generation one, not torn down.
    pub fn create(plan: &SurfaceCreationPlan) -> (r: SurfaceContext)
        requires
            1 <= plan.width <= MAX_DIMENSION,
            1 <= plan.height <= MAX_DIMENSION,
        ensures
            r.wf(),
            r.spec_width() == plan.width,
            r.spec_height() == plan.height,
            r.spec_queue_family() == plan.queue_family_index,
            r.spec_generation() == 1,
            !r.spec_torn_down(),
    {
        SurfaceContext {
            width: plan.width,
            height: plan.height,
            queue_family_index: plan.queue_family_index,
            swapchain_generation: 1,
            torn_down: false,
        }
    }

    pub fn width(&self) -> (r: u32)
        ensures
            r == self.spec_width(),
    {
        self.width
    }

    pub fn height(&self) -> (r: u32)
        ensures
            r == self.spec_height(),
    {
        self.height
    }

    pub fn queue_family(&self) -> (r: u32)
        ensures
            r == self.spec_queue_family(),
    {
        self.queue_family_index
    }

    /// The swapchain rebuild counter, for observing that a resize was or
    /// was not a rebuild.
    pub fn generation(&self) -> (r: u64)
        ensures
            r == self.spec_generation(),
    {
        self.swapchain_generation
    }

    pub fn is_torn_down(&self) -> (r: bool)
        ensures
            r == self.spec_torn_down(),
    {
        self.torn_down
    }

    /// Points the context at a new extent. A resize to the extent the
    /// swapchain is already built for is a no-op: the context is left
    /// untouched and no destroy/recreate cycle is counted. Only a real
    /// change replaces the swapchain, raising the generation by one.
    /// Returns whether the swapchain was replaced.
    pub fn resize(&mut self, width: u32, height: u32) -> (recreated: bool)
        requires
            old(self).wf(),
            !old(self).spec_torn_down(),
            1 <= width <= MAX_DIMENSION,
            1 <= height <= MAX_DIMENSION,
        ensures
            final (self).wf(),
            !final (self).spec_torn_down(),
            final (self).spec_queue_family() == old(self).spec_queue_family(),
            recreated == !(width == old(self).spec_width() && height == old(
                self,
            ).spec_height()),
            !recreated ==> *final (self) == *old(self),
            recreated ==> {
                &&& final (self).spec_width() == width
                &&& final (self).spec_height() == height
                &&& final (self).spec_generation() == if old(self).spec_generation()
                    < u64::MAX {
                    old(self).spec_generation() + 1
                } else {
                    old(self).spec_generation() as int
                }
            },
    {
        if width == self.width && height == self.height {
            return false;
        }
        self.width = width;
        self.height = height;
        if self.swapchain_generation < u64::MAX {
            self.swapchain_generation = self.swapchain_generation + 1;
        }
        true
    }

    /// Releases the context's GPU resources. Safe to call any number of
    /// times: once torn down, the context never changes again.
    pub fn teardown(&mut self)
        ensures
            final (self).spec_torn_down(),
            old(self).spec_torn_down() ==> *final (self) == *old(self),
            final (self).spec_width() == old(self).spec_width(),
            final (self).spec_height() == old(self).spec_height(),
            final (self).spec_queue_family() == old(self).spec_queue_family(),
            final (self).spec_generation() == old(self).spec_generation(),
            old(self).wf() ==> final (self).wf(),
    {
        self.torn_down = true;
    }
}

} // verus!
