//! Swapchain planning: image count, surface format, present mode and extent.
//!
//! The unverified shell queries the surface's capability report, format list
//! and present-mode list from the driver and hands them here as plain values;
//! the functions in this module make every choice the swapchain creation call
//! depends on.

use vstd::prelude::*;

verus! {

/// Raw code of the low-latency triple-buffering present mode.
pub const PRESENT_MODE_MAILBOX: u32 = 1;
/// Raw code of the universally supported vsync present mode.
pub const PRESENT_MODE_FIFO: u32 = 2;

/// Raw code of the 24-bit RGB format, the first preference tier.
pub const FORMAT_R8G8B8_UNORM: u32 = 23;
/// Raw code of the 24-bit BGR format, the second preference tier.
pub const FORMAT_B8G8R8_UNORM: u32 = 30;
/// Raw code of the nonlinear sRGB color space.
pub const COLOR_SPACE_SRGB_NONLINEAR: u32 = 0;

/// A supported surface format as the driver reports it: a pixel format
/// paired with a color space, both as their raw codes.
#[derive(Clone, Copy, PartialEq, Eq, Structural, Debug)]
pub struct SurfaceFormat {
    pub format: u32,
    pub color_space: u32,
}

/// What the surface's capability report contributes to swapchain planning.
///
/// `current_width == u32::MAX` is the driver's sentinel for "extent undefined,
/// take the window's size instead".
#[derive(Clone, Copy, PartialEq, Eq, Structural, Debug)]
pub struct SurfaceCaps {
    pub min_image_count: u32,
    pub max_image_count: u32,
    pub current_width: u32,
    pub current_height: u32,
}

/// A pixel extent.
#[derive(Clone, Copy, PartialEq, Eq, Structural, Debug)]
pub struct Extent {
    pub width: u32,
    pub height: u32,
}

/// Everything the swapchain creation call needs that involves a choice.
#[derive(Clone, Copy, PartialEq, Eq, Structural, Debug)]
pub struct SwapchainPlan {
    pub format: SurfaceFormat,
    pub image_count: u32,
    pub extent: Extent,
    pub present_mode: u32,
}

/// Preference tier of a surface format: tier 0 and 1 are the two formats the
/// renderer prefers, in order; everything else is tier 2.
pub open spec fn format_rank(f: SurfaceFormat) -> int {
    if f.format == FORMAT_R8G8B8_UNORM && f.color_space == COLOR_SPACE_SRGB_NONLINEAR {
        0
    } else if f.format == FORMAT_B8G8R8_UNORM && f.color_space == COLOR_SPACE_SRGB_NONLINEAR {
        1
    } else {
        2
    }
}

/// `f` stands in `s`, no element of `s` has a better (smaller) preference
/// tier, and `f` is the earliest element of its tier.  Exactly one format of
/// a non-empty list satisfies this.
pub open spec fn is_chosen_format(s: Seq<SurfaceFormat>, f: SurfaceFormat) -> bool {
    exists|i: int|
        {
            &&& 0 <= i < s.len()
            &&& #[trigger] s[i] == f
            &&& forall|j: int| 0 <= j < s.len() ==> format_rank(f) <= format_rank(#[trigger] s[j])
            &&& forall|j: int| 0 <= j < i ==> format_rank(#[trigger] s[j]) > format_rank(f)
        }
}

fn format_rank_of(f: &SurfaceFormat) -> (r: u32)
    ensures
        r == format_rank(*f),
{
    if f.format == FORMAT_R8G8B8_UNORM && f.color_space == COLOR_SPACE_SRGB_NONLINEAR {
        0
    } else if f.format == FORMAT_B8G8R8_UNORM && f.color_space == COLOR_SPACE_SRGB_NONLINEAR {
        1
    } else {
        2
    }
}

/// The surface format to build the swapchain with: the first format of the
/// best preference tier present in the driver's list, or `None` when the
/// driver reports no format at all (an unsupportable surface).
pub fn choose_surface_format(formats: &Vec<SurfaceFormat>) -> (r: Option<SurfaceFormat>)
    ensures
        r is None <==> formats@.len() == 0,
        r matches Some(f) ==> is_chosen_format(formats@, f),
{
    if formats.len() == 0 {
        return None;
    }
    let mut best = formats[0];
    let ghost mut best_i: int = 0;
    let mut i: usize = 1;
    while i < formats.len()
        invariant
            1 <= i <= formats@.len(),
            0 <= best_i < i,
            formats@[best_i] == best,
            forall|j: int| 0 <= j < i ==> format_rank(best) <= format_rank(#[trigger] formats@[j]),
            forall|j: int| 0 <= j < best_i ==> format_rank(#[trigger] formats@[j]) > format_rank(best),
        decreases formats@.len() - i,
    {
        if format_rank_of(&formats[i]) < format_rank_of(&best) {
            best = formats[i];
            proof {
                best_i = i as int;
            }
        }
        i = i + 1;
    }
    proof {
        assert(0 <= best_i < formats@.len() && formats@[best_i] == best);
    }
    Some(best)
}

/// Of a non-empty list, exactly one format is the chosen one: two values
/// both satisfying [`is_chosen_format`] are equal.
pub proof fn lemma_chosen_format_unique(s: Seq<SurfaceFormat>, f1: SurfaceFormat, f2: SurfaceFormat)
    requires
        is_chosen_format(s, f1),
        is_chosen_format(s, f2),
    ensures
        f1 == f2,
{
    let i1 = choose|i: int|
        {
            &&& 0 <= i < s.len()
            &&& #[trigger] s[i] == f1
            &&& forall|j: int| 0 <= j < s.len() ==> format_rank(f1) <= format_rank(#[trigger] s[j])
            &&& forall|j: int| 0 <= j < i ==> format_rank(#[trigger] s[j]) > format_rank(f1)
        };
    let i2 = choose|i: int|
        {
            &&& 0 <= i < s.len()
            &&& #[trigger] s[i] == f2
            &&& forall|j: int| 0 <= j < s.len() ==> format_rank(f2) <= format_rank(#[trigger] s[j])
            &&& forall|j: int| 0 <= j < i ==> format_rank(#[trigger] s[j]) > format_rank(f2)
        };
    assert(format_rank(f1) <= format_rank(s[i2]));
    assert(format_rank(f2) <= format_rank(s[i1]));
    if i1 < i2 {
        assert(format_rank(s[i1]) > format_rank(f2));
    } else if i2 < i1 {
        assert(format_rank(s[i2]) > format_rank(f1));
    }
}

/// Number of images to request from the swapchain: one more than the
/// reported minimum, clamped to the reported maximum where that bound
/// exists (`max_image_count == 0` means unbounded).
pub fn compute_image_count(min_image_count: u32, max_image_count: u32) -> (count: u32)
    requires
        min_image_count < u32::MAX,
        max_image_count == 0 || min_image_count <= max_image_count,
    ensures
        count == if max_image_count > 0 && min_image_count + 1 > max_image_count {
            max_image_count as int
        } else {
            min_image_count + 1
        },
        min_image_count <= count,
        max_image_count > 0 ==> count <= max_image_count,
{
    let count = min_image_count + 1;
    if max_image_count > 0 && count > max_image_count {
        max_image_count
    } else {
        count
    }
}

/// The present mode to ask for: the low-latency mailbox mode when the driver
/// offers it, otherwise the always-available vsync mode.
pub fn choose_present_mode(modes: &Vec<u32>) -> (mode: u32)
    ensures
        modes@.contains(PRESENT_MODE_MAILBOX) ==> mode == PRESENT_MODE_MAILBOX,
        !modes@.contains(PRESENT_MODE_MAILBOX) ==> mode == PRESENT_MODE_FIFO,
{
    let mut i: usize = 0;
    while i < modes.len()
        invariant
            i <= modes@.len(),
            forall|j: int| 0 <= j < i ==> modes@[j] != PRESENT_MODE_MAILBOX,
        decreases modes@.len() - i,
    {
        if modes[i] == PRESENT_MODE_MAILBOX {
            return PRESENT_MODE_MAILBOX;
        }
        i = i + 1;
    }
    PRESENT_MODE_FIFO
}

/// The swapchain extent: the surface's current extent, unless the driver
/// reports the undefined-extent sentinel, in which case the window's own
/// pixel size is taken.
pub fn choose_extent(caps: &SurfaceCaps, window_width: u32, window_height: u32) -> (e: Extent)
    ensures
        caps.current_width == u32::MAX ==> e == (Extent {
            width: window_width,
            height: window_height,
        }),
        caps.current_width != u32::MAX ==> e == (Extent {
            width: caps.current_width,
            height: caps.current_height,
        }),
{
    if caps.current_width == u32::MAX {
        Extent { width: window_width, height: window_height }
    } else {
        Extent { width: caps.current_width, height: caps.current_height }
    }
}

/// `r` is the plan that [`plan_swapchain`] owes for these inputs: the chosen
/// format, the clamped image count, the resolved extent and the preferred
/// present mode — or `None` exactly when the driver reports no format.
pub open spec fn plan_matches(
    formats: Seq<SurfaceFormat>,
    modes: Seq<u32>,
    caps: SurfaceCaps,
    window_width: u32,
    window_height: u32,
    r: Option<SwapchainPlan>,
) -> bool {
    match r {
        None => formats.len() == 0,
        Some(p) => {
            &&& formats.len() > 0
            &&& is_chosen_format(formats, p.format)
            &&& p.image_count == if caps.max_image_count > 0 && caps.min_image_count + 1
                > caps.max_image_count {
                caps.max_image_count as int
            } else {
                caps.min_image_count + 1
            }
            &&& p.extent == if caps.current_width == u32::MAX {
                Extent { width: window_width, height: window_height }
            } else {
                Extent { width: caps.current_width, height: caps.current_height }
            }
            &&& modes.contains(PRESENT_MODE_MAILBOX) ==> p.present_mode == PRESENT_MODE_MAILBOX
            &&& !modes.contains(PRESENT_MODE_MAILBOX) ==> p.present_mode == PRESENT_MODE_FIFO
        },
    }
}

/// Every choice behind one swapchain creation (or recreation), from the
/// surface's report and the window's pixel size.  `None` means the surface
/// supports no format at all, which the caller treats as fatal.
pub fn plan_swapchain(
    formats: &Vec<SurfaceFormat>,
    modes: &Vec<u32>,
    caps: &SurfaceCaps,
    window_width: u32,
    window_height: u32,
) -> (r: Option<SwapchainPlan>)
    requires
        caps.min_image_count < u32::MAX,
        caps.max_image_count == 0 || caps.min_image_count <= caps.max_image_count,
    ensures
        plan_matches(formats@, modes@, *caps, window_width, window_height, r),
        r matches Some(p) ==> caps.min_image_count <= p.image_count && (caps.max_image_count > 0
            ==> p.image_count <= caps.max_image_count),
{
    let format = match choose_surface_format(formats) {
        None => {
            return None;
        },
        Some(f) => f,
    };
    let image_count = compute_image_count(caps.min_image_count, caps.max_image_count);
    let extent = choose_extent(caps, window_width, window_height);
    let present_mode = choose_present_mode(modes);
    Some(SwapchainPlan { format, image_count, extent, present_mode })
}

/// Recreation is idempotent with respect to the plan: two plans drawn from
/// the same surface report, mode list and window size are equal — in
/// particular they carry the same image count and the same format.
pub proof fn lemma_recreate_idempotent(
    formats: Seq<SurfaceFormat>,
    modes: Seq<u32>,
    caps: SurfaceCaps,
    window_width: u32,
    window_height: u32,
    r1: Option<SwapchainPlan>,
    r2: Option<SwapchainPlan>,
)
    requires
        plan_matches(formats, modes, caps, window_width, window_height, r1),
        plan_matches(formats, modes, caps, window_width, window_height, r2),
    ensures
        r1 == r2,
{
    match (r1, r2) {
        (Some(p1), Some(p2)) => {
            lemma_chosen_format_unique(formats, p1.format, p2.format);
            assert(p1 == p2);
        },
        _ => {},
    }
}

} // verus!
