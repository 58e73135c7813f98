use renderer_core::swapchain::{
    choose_extent, choose_present_mode, choose_surface_format, compute_image_count, plan_swapchain,
    SurfaceCaps, SurfaceFormat, COLOR_SPACE_SRGB_NONLINEAR, FORMAT_B8G8R8_UNORM,
    FORMAT_R8G8B8_UNORM, PRESENT_MODE_FIFO, PRESENT_MODE_MAILBOX,
};

fn caps(min: u32, max: u32, width: u32, height: u32) -> SurfaceCaps {
    SurfaceCaps {
        min_image_count: min,
        max_image_count: max,
        current_width: width,
        current_height: height,
    }
}

#[test]
fn image_count_unbounded_max_takes_min_plus_one() {
    // min_image_count = 2, max_image_count = 0 (unbounded): expect 3.
    assert_eq!(compute_image_count(2, 0), 3);
}

#[test]
fn image_count_within_reported_bounds() {
    assert_eq!(compute_image_count(1, 0), 2);
    assert_eq!(compute_image_count(2, 4), 3);
    // The maximum is the tighter bound here.
    assert_eq!(compute_image_count(3, 3), 3);
    assert_eq!(compute_image_count(2, 2), 2);
}

#[test]
fn first_preference_tier_format_is_selected() {
    let formats = vec![SurfaceFormat {
        format: FORMAT_R8G8B8_UNORM,
        color_space: COLOR_SPACE_SRGB_NONLINEAR,
    }];
    let chosen = choose_surface_format(&formats).unwrap();
    assert_eq!(chosen.format, FORMAT_R8G8B8_UNORM);
    assert_eq!(chosen.color_space, COLOR_SPACE_SRGB_NONLINEAR);
}

#[test]
fn preferred_format_beats_earlier_unpreferred_ones() {
    let formats = vec![
        SurfaceFormat { format: 44, color_space: 7 },
        SurfaceFormat { format: FORMAT_B8G8R8_UNORM, color_space: COLOR_SPACE_SRGB_NONLINEAR },
        SurfaceFormat { format: FORMAT_R8G8B8_UNORM, color_space: COLOR_SPACE_SRGB_NONLINEAR },
    ];
    let chosen = choose_surface_format(&formats).unwrap();
    assert_eq!(chosen.format, FORMAT_R8G8B8_UNORM);
}

#[test]
fn second_tier_format_wins_when_first_tier_is_absent() {
    let formats = vec![
        SurfaceFormat { format: 44, color_space: 7 },
        SurfaceFormat { format: FORMAT_B8G8R8_UNORM, color_space: COLOR_SPACE_SRGB_NONLINEAR },
    ];
    let chosen = choose_surface_format(&formats).unwrap();
    assert_eq!(chosen.format, FORMAT_B8G8R8_UNORM);
}

#[test]
fn first_format_wins_when_no_tier_matches() {
    let formats = vec![
        SurfaceFormat { format: 44, color_space: 7 },
        SurfaceFormat { format: 50, color_space: 0 },
    ];
    let chosen = choose_surface_format(&formats).unwrap();
    assert_eq!(chosen, SurfaceFormat { format: 44, color_space: 7 });
}

#[test]
fn empty_format_list_yields_none() {
    let formats: Vec<SurfaceFormat> = Vec::new();
    assert!(choose_surface_format(&formats).is_none());
}

#[test]
fn fifo_only_list_selects_fifo() {
    // Present-mode list contains FIFO only (no MAILBOX): FIFO is selected.
    let modes = vec![PRESENT_MODE_FIFO];
    assert_eq!(choose_present_mode(&modes), PRESENT_MODE_FIFO);
}

#[test]
fn mailbox_is_preferred_when_offered() {
    let modes = vec![PRESENT_MODE_FIFO, PRESENT_MODE_MAILBOX];
    assert_eq!(choose_present_mode(&modes), PRESENT_MODE_MAILBOX);
}

#[test]
fn undefined_extent_sentinel_takes_window_size() {
    let c = caps(1, 0, u32::MAX, 123);
    let e = choose_extent(&c, 800, 600);
    assert_eq!((e.width, e.height), (800, 600));
}

#[test]
fn defined_extent_is_kept() {
    let c = caps(1, 0, 1024, 768);
    let e = choose_extent(&c, 800, 600);
    assert_eq!((e.width, e.height), (1024, 768));
}

#[test]
fn full_plan_combines_all_choices() {
    let formats = vec![
        SurfaceFormat { format: 44, color_space: 7 },
        SurfaceFormat { format: FORMAT_R8G8B8_UNORM, color_space: COLOR_SPACE_SRGB_NONLINEAR },
    ];
    let modes = vec![PRESENT_MODE_FIFO];
    let c = caps(2, 0, 640, 480);
    let plan = plan_swapchain(&formats, &modes, &c, 800, 800).unwrap();
    assert_eq!(plan.format.format, FORMAT_R8G8B8_UNORM);
    assert_eq!(plan.image_count, 3);
    assert_eq!((plan.extent.width, plan.extent.height), (640, 480));
    assert_eq!(plan.present_mode, PRESENT_MODE_FIFO);
}

#[test]
fn plan_fails_only_without_formats() {
    let modes = vec![PRESENT_MODE_FIFO];
    let c = caps(1, 2, 640, 480);
    assert!(plan_swapchain(&Vec::new(), &modes, &c, 800, 800).is_none());
}

#[test]
fn replanning_at_the_same_extent_reproduces_the_plan() {
    // Recreating the swapchain from an unchanged surface report gives a
    // swapchain with the same image count and format as the first recreation.
    let formats = vec![
        SurfaceFormat { format: FORMAT_B8G8R8_UNORM, color_space: COLOR_SPACE_SRGB_NONLINEAR },
        SurfaceFormat { format: 44, color_space: 7 },
    ];
    let modes = vec![PRESENT_MODE_FIFO, PRESENT_MODE_MAILBOX];
    let c = caps(2, 3, 640, 480);
    let first = plan_swapchain(&formats, &modes, &c, 800, 800).unwrap();
    let second = plan_swapchain(&formats, &modes, &c, 800, 800).unwrap();
    assert_eq!(first, second);
    assert_eq!(first.image_count, second.image_count);
    assert_eq!(first.format, second.format);
}
