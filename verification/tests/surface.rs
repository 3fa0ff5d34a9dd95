use renderer::surface::{
    Config, ConfigurationOptions, Extent2D, SurfaceCapabilities, SurfaceFormat,
    COLOR_SPACE_SRGB_NONLINEAR, FORMAT_B8G8R8A8_SRGB, PRESENT_MODE_FIFO,
    PRESENT_MODE_FIFO_RELAXED,
};

fn caps(current: (u32, u32), min: (u32, u32), max: (u32, u32), counts: (u32, u32)) -> SurfaceCapabilities {
    SurfaceCapabilities {
        min_image_count: counts.0,
        max_image_count: counts.1,
        current_extent: Extent2D { width: current.0, height: current.1 },
        min_image_extent: Extent2D { width: min.0, height: min.1 },
        max_image_extent: Extent2D { width: max.0, height: max.1 },
    }
}

fn preferred() -> SurfaceFormat {
    SurfaceFormat { format: FORMAT_B8G8R8A8_SRGB, color_space: COLOR_SPACE_SRGB_NONLINEAR }
}

#[test]
fn preferred_format_is_chosen_when_offered() {
    let other = SurfaceFormat { format: 44, color_space: 0 };
    assert_eq!(ConfigurationOptions::choose_best_surface_format(&vec![other, preferred()]), preferred());
}

#[test]
fn first_format_is_chosen_otherwise() {
    let a = SurfaceFormat { format: 44, color_space: 0 };
    let b = SurfaceFormat { format: 50, color_space: 1 };
    assert_eq!(ConfigurationOptions::choose_best_surface_format(&vec![a, b]), a);
}

#[test]
fn present_mode_prefers_relaxed_fifo() {
    assert_eq!(ConfigurationOptions::choose_best_present_mode(&vec![0, 1, 3]), PRESENT_MODE_FIFO_RELAXED);
    assert_eq!(ConfigurationOptions::choose_best_present_mode(&vec![0, 1]), PRESENT_MODE_FIFO);
    assert_eq!(ConfigurationOptions::choose_best_present_mode(&vec![]), PRESENT_MODE_FIFO);
    assert_eq!(PRESENT_MODE_FIFO, ash::vk::PresentModeKHR::FIFO.as_raw());
    assert_eq!(PRESENT_MODE_FIFO_RELAXED, ash::vk::PresentModeKHR::FIFO_RELAXED.as_raw());
    assert_eq!(FORMAT_B8G8R8A8_SRGB, ash::vk::Format::B8G8R8A8_SRGB.as_raw());
}

#[test]
fn extent_is_current_extent_when_defined() {
    let c = caps((800, 600), (1, 1), (4096, 4096), (2, 8));
    assert_eq!(ConfigurationOptions::choose_extent(&c), Extent2D { width: 800, height: 600 });
}

#[test]
fn extent_is_clamped_when_left_to_the_swapchain() {
    let c = caps((u32::MAX, 5), (10, 10), (1920, 1080), (2, 8));
    assert_eq!(ConfigurationOptions::choose_extent(&c), Extent2D { width: 1920, height: 10 });
}

#[test]
fn image_count_is_one_above_minimum_within_maximum() {
    assert_eq!(ConfigurationOptions::choose_image_count(&caps((1, 1), (1, 1), (1, 1), (2, 8))), 3);
    assert_eq!(ConfigurationOptions::choose_image_count(&caps((1, 1), (1, 1), (1, 1), (3, 3))), 3);
    assert_eq!(ConfigurationOptions::choose_image_count(&caps((1, 1), (1, 1), (1, 1), (2, 0))), 3);
}

#[test]
fn optimal_config_combines_the_choices() {
    let options = ConfigurationOptions::new(
        caps((1280, 720), (1, 1), (4096, 4096), (2, 0)),
        vec![preferred()],
        vec![PRESENT_MODE_FIFO],
    );
    assert!(options.has_some());
    assert_eq!(
        options.get_optimal(),
        Config {
            surface_format: preferred(),
            present_mode: PRESENT_MODE_FIFO,
            extent: Extent2D { width: 1280, height: 720 },
            image_count: 3,
        }
    );
}

#[test]
fn options_without_formats_or_modes_have_none() {
    let c = caps((1, 1), (1, 1), (1, 1), (1, 1));
    assert!(!ConfigurationOptions::new(c, vec![], vec![2]).has_some());
    assert!(!ConfigurationOptions::new(c, vec![preferred()], vec![]).has_some());
}

#[test]
fn refresh_reports_zero_extent_as_invalid() {
    let mut config = Config {
        surface_format: preferred(),
        present_mode: PRESENT_MODE_FIFO,
        extent: Extent2D { width: 800, height: 600 },
        image_count: 3,
    };
    assert!(config.valid_extent());
    assert!(!config.refresh_capabilities(&caps((0, 0), (0, 0), (0, 0), (2, 3))));
    assert_eq!(config.extent, Extent2D { width: 0, height: 0 });
    assert!(config.refresh_capabilities(&caps((1024, 768), (0, 0), (0, 0), (2, 3))));
    assert_eq!(config.extent, Extent2D { width: 1024, height: 768 });
    assert_eq!(config.image_count, 3);
}

#[test]
fn capabilities_usability() {
    assert!(caps((800, 600), (10, 10), (1, 1), (2, 3)).is_usable());
    assert!(!caps((u32::MAX, 600), (10, 10), (1, 1), (2, 3)).is_usable());
    assert!(caps((u32::MAX, 600), (1, 1), (10, 10), (2, 3)).is_usable());
    assert!(!caps((800, 600), (1, 1), (10, 10), (u32::MAX, 3)).is_usable());
}

#[test]
fn refresh_works_for_any_image_count() {
    let mut config = Config {
        surface_format: preferred(),
        present_mode: PRESENT_MODE_FIFO,
        extent: Extent2D { width: 1, height: 1 },
        image_count: 3,
    };
    let c = caps((800, 600), (1, 1), (10, 10), (u32::MAX, 0));
    assert!(c.extent_range_is_usable());
    assert!(!c.is_usable());
    assert!(config.refresh_capabilities(&c));
    assert_eq!(config.extent, Extent2D { width: 800, height: 600 });
    assert_eq!(ConfigurationOptions::choose_extent(&c), Extent2D { width: 800, height: 600 });
    let c = caps((u32::MAX, u32::MAX), (1, 2), (10, 20), (u32::MAX, 0));
    assert!(config.refresh_capabilities(&c));
    assert_eq!(config.extent, Extent2D { width: 10, height: 20 });
    assert!(!caps((u32::MAX, 5), (10, 1), (1, 10), (2, 3)).extent_range_is_usable());
}
