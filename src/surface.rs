use vstd::prelude::*;

verus! {

/// `VK_FORMAT_R8G8B8A8_SRGB`.
pub const FORMAT_R8G8B8A8_SRGB: i32 = 43;

/// `VK_FORMAT_B8G8R8A8_SRGB`.
pub const FORMAT_B8G8R8A8_SRGB: i32 = 50;

/// `VK_COLOR_SPACE_SRGB_NONLINEAR_KHR`.
pub const COLOR_SPACE_SRGB_NONLINEAR: i32 = 0;

/// `VK_PRESENT_MODE_MAILBOX_KHR`: low-latency triple buffering.
pub const PRESENT_MODE_MAILBOX: i32 = 1;

/// `VK_PRESENT_MODE_FIFO_KHR`: vsync, which every surface supports.
pub const PRESENT_MODE_FIFO: i32 = 2;

/// A pixel format and color space a surface supports, as raw Vulkan values.
#[derive(Debug, Clone, Copy, PartialEq, Eq, Structural)]
pub struct SurfaceFormat {
    pub format: i32,
    pub color_space: i32,
}

/// What one queue family of a physical device offers.
#[derive(Debug, Clone, Copy, PartialEq, Eq, Structural)]
pub struct QueueFamilySupport {
    pub graphics: bool,
    pub present: bool,
}

pub open spec fn is_preferred_format(f: SurfaceFormat) -> bool {
    (f.format == FORMAT_B8G8R8A8_SRGB || f.format == FORMAT_R8G8B8A8_SRGB) && f.color_space
        == COLOR_SPACE_SRGB_NONLINEAR
}

/// The first 8-bit sRGB BGRA or RGBA format with the non-linear sRGB color
/// space; failing that, the first format offered. `None` only when nothing is
/// offered.
pub fn choose_surface_format(available: &Vec<SurfaceFormat>) -> (r: Option<SurfaceFormat>)
    ensures
        r is None <==> available@.len() == 0,
        r matches Some(f) ==> {
            ||| exists|i: int|
                {
                    &&& 0 <= i < available@.len()
                    &&& available@[i] == f
                    &&& is_preferred_format(f)
                    &&& forall|j: int| 0 <= j < i ==> !is_preferred_format(#[trigger] available@[j])
                }
            ||| (forall|j: int|
                0 <= j < available@.len() ==> !is_preferred_format(#[trigger] available@[j])) && f
                == available@[0]
        },
{
    let mut i: usize = 0;
    while i < available.len()
        invariant
            i <= available@.len(),
            forall|j: int| 0 <= j < i ==> !is_preferred_format(#[trigger] available@[j]),
        decreases available@.len() - i,
    {
        let f = available[i];
        if (f.format == FORMAT_B8G8R8A8_SRGB || f.format == FORMAT_R8G8B8A8_SRGB) && f.color_space
            == COLOR_SPACE_SRGB_NONLINEAR {
            return Some(f);
        }
        i = i + 1;
    }
    if available.len() == 0 {
        None
    } else {
        Some(available[0])
    }
}

/// Mailbox when the surface offers it, otherwise FIFO.
pub fn choose_present_mode(available: &Vec<i32>) -> (r: i32)
    ensures
        r == if available@.contains(PRESENT_MODE_MAILBOX) {
            PRESENT_MODE_MAILBOX
        } else {
            PRESENT_MODE_FIFO
        },
{
    let mut i: usize = 0;
    while i < available.len()
        invariant
            i <= available@.len(),
            forall|j: int| 0 <= j < i ==> available@[j] != PRESENT_MODE_MAILBOX,
        decreases available@.len() - i,
    {
        if available[i] == PRESENT_MODE_MAILBOX {
            return PRESENT_MODE_MAILBOX;
        }
        i = i + 1;
    }
    PRESENT_MODE_FIFO
}

/// One image more than the surface's minimum, capped by its maximum when it
/// has one (a maximum of 0 means no limit).
pub fn choose_image_count(min_image_count: u32, max_image_count: u32) -> (r: u32)
    ensures
        r == if max_image_count > 0 && min_image_count + 1 > max_image_count {
            max_image_count as int
        } else if min_image_count == u32::MAX {
            u32::MAX as int
        } else {
            min_image_count + 1
        },
{
    let desired = min_image_count.saturating_add(1);
    if max_image_count > 0 && desired > max_image_count {
        max_image_count
    } else {
        desired
    }
}

/// Memory type `index` is allowed by `type_bits` and has every flag of `required`.
pub open spec fn memory_type_fits(type_bits: u32, flags: u32, required: u32, index: int) -> bool {
    &&& 0 <= index < 32
    &&& type_bits & (1u32 << (index as u32)) != 0
    &&& flags & required == required
}

/// The first memory type allowed by `type_bits` whose property flags (one
/// entry per memory type of the device) include all of `required`.
pub fn find_memory_type(type_bits: u32, type_flags: &Vec<u32>, required: u32) -> (r: Option<u32>)
    ensures
        r matches Some(x) ==> {
            &&& x < type_flags@.len()
            &&& memory_type_fits(type_bits, type_flags@[x as int], required, x as int)
            &&& forall|y: int|
                0 <= y < x ==> !memory_type_fits(type_bits, #[trigger] type_flags@[y], required, y)
        },
        r is None ==> forall|y: int|
            0 <= y < type_flags@.len() ==> !memory_type_fits(
                type_bits,
                #[trigger] type_flags@[y],
                required,
                y,
            ),
{
    let mut x: u32 = 0;
    while (x as usize) < type_flags.len() && x < 32
        invariant
            x <= 32,
            x <= type_flags@.len(),
            forall|y: int|
                0 <= y < x ==> !memory_type_fits(type_bits, #[trigger] type_flags@[y], required, y),
        decreases 32 - x,
    {
        if type_bits & (1u32 << x) != 0 && type_flags[x as usize] & required == required {
            return Some(x);
        }
        x = x + 1;
    }
    proof {
        assert forall|y: int| 0 <= y < type_flags@.len() implies !memory_type_fits(
            type_bits,
            #[trigger] type_flags@[y],
            required,
            y,
        ) by {
            if y >= x {
                assert(x == 32);
            }
        }
    }
    None
}

pub open spec fn family_suitable(f: QueueFamilySupport) -> bool {
    f.graphics && f.present
}

/// The first device, and its first queue family, that can both draw and
/// present to the surface. `devices[d][q]` describes family `q` of device `d`.
pub fn pick_queue_family(devices: &Vec<Vec<QueueFamilySupport>>) -> (r: Option<(usize, usize)>)
    ensures
        r matches Some((d, q)) ==> {
            &&& d < devices@.len()
            &&& q < devices@[d as int]@.len()
            &&& family_suitable(devices@[d as int]@[q as int])
            &&& forall|e: int, p: int|
                0 <= e < d && 0 <= p < devices@[e]@.len() ==> !family_suitable(
                    #[trigger] devices@[e]@[p],
                )
            &&& forall|p: int| 0 <= p < q ==> !family_suitable(#[trigger] devices@[d as int]@[p])
        },
        r is None ==> forall|e: int, p: int|
            0 <= e < devices@.len() && 0 <= p < devices@[e]@.len() ==> !family_suitable(
                #[trigger] devices@[e]@[p],
            ),
{
    let mut d: usize = 0;
    while d < devices.len()
        invariant
            d <= devices@.len(),
            forall|e: int, p: int|
                0 <= e < d && 0 <= p < devices@[e]@.len() ==> !family_suitable(
                    #[trigger] devices@[e]@[p],
                ),
        decreases devices@.len() - d,
    {
        let families = &devices[d];
        let mut q: usize = 0;
        while q < families.len()
            invariant
                d < devices@.len(),
                families@ == devices@[d as int]@,
                q <= families@.len(),
                forall|e: int, p: int|
                    0 <= e < d && 0 <= p < devices@[e]@.len() ==> !family_suitable(
                        #[trigger] devices@[e]@[p],
                    ),
                forall|p: int| 0 <= p < q ==> !family_suitable(#[trigger] families@[p]),
            decreases families@.len() - q,
        {
            if families[q].graphics && families[q].present {
                return Some((d, q));
            }
            q = q + 1;
        }
        d = d + 1;
    }
    None
}

} // verus!
