use alacritty_terminal::config::{Decorations, RendererApi, StartupMode};
use alacritty_terminal::renderer::runtime::RuntimeQuadRenderer;
use alacritty_terminal::vk_renderer::swapchain_ext::{Capabilities, SupportedPresentModes};
use alacritty_terminal::window::{
    name_or_default, next_srgb_attempt, startup_steps, window_attributes, StartupSteps,
    WindowAttributes,
};

#[test]
fn given_name_is_kept() {
    assert_eq!(name_or_default(Some("term")), "term");
    assert_eq!(name_or_default(Some("")), "");
}

#[test]
fn missing_name_is_the_default() {
    assert_eq!(name_or_default(None), "Alacritty");
}

#[test]
fn window_is_decorated_unless_told_otherwise() {
    for decorations in [Decorations::Full, Decorations::Transparent, Decorations::Buttonless] {
        assert_eq!(
            window_attributes(decorations, StartupMode::Windowed),
            WindowAttributes { decorations: true, maximized: false }
        );
    }
    assert_eq!(
        window_attributes(Decorations::Undecorated, StartupMode::Windowed),
        WindowAttributes { decorations: false, maximized: false }
    );
}

#[test]
fn window_is_built_maximized_only_to_start_so() {
    assert_eq!(
        window_attributes(Decorations::Full, StartupMode::Maximized),
        WindowAttributes { decorations: true, maximized: true }
    );
    assert_eq!(
        window_attributes(Decorations::Undecorated, StartupMode::Maximized),
        WindowAttributes { decorations: false, maximized: true }
    );
    for mode in [StartupMode::Windowed, StartupMode::Fullscreen, StartupMode::SimpleFullscreen] {
        assert!(!window_attributes(Decorations::Full, mode).maximized);
    }
}

#[test]
fn maximizing_is_repeated_on_x11_alone() {
    assert_eq!(
        startup_steps(StartupMode::Maximized, true),
        StartupSteps { maximize: true, fullscreen: false, simple_fullscreen: false }
    );
    assert_eq!(
        startup_steps(StartupMode::Maximized, false),
        StartupSteps { maximize: false, fullscreen: false, simple_fullscreen: false }
    );
}

#[test]
fn fullscreen_modes_take_their_own_step() {
    for is_x11 in [false, true] {
        assert_eq!(
            startup_steps(StartupMode::Fullscreen, is_x11),
            StartupSteps { maximize: false, fullscreen: true, simple_fullscreen: false }
        );
        assert_eq!(
            startup_steps(StartupMode::SimpleFullscreen, is_x11),
            StartupSteps { maximize: false, fullscreen: false, simple_fullscreen: true }
        );
        assert_eq!(
            startup_steps(StartupMode::Windowed, is_x11),
            StartupSteps { maximize: false, fullscreen: false, simple_fullscreen: false }
        );
    }
}

#[test]
fn gl_window_is_tried_without_srgb_first() {
    assert_eq!(next_srgb_attempt(None), Some(false));
    assert_eq!(next_srgb_attempt(Some(false)), Some(true));
    assert_eq!(next_srgb_attempt(Some(true)), None);
}

#[test]
fn dispatcher_names_the_backend_it_holds() {
    let classic: RuntimeQuadRenderer<u8, u16> = RuntimeQuadRenderer::Classic(1);
    let vulkan: RuntimeQuadRenderer<u8, u16> = RuntimeQuadRenderer::Vulkan(2);
    assert_eq!(classic.api(), RendererApi::Classic);
    assert_eq!(vulkan.api(), RendererApi::Vulkan);
}

#[test]
fn image_count_fits_unless_unbounded_at_the_top() {
    let mut capabilities = Capabilities {
        min_image_count: u32::MAX,
        max_image_count: None,
        current_extent: None,
        min_image_extent: [1, 1],
        max_image_extent: [2, 2],
        supported_formats: Vec::new(),
        present_modes: SupportedPresentModes {
            immediate: false,
            mailbox: false,
            fifo: true,
            relaxed: false,
            shared_demand: false,
            shared_continuous: false,
        },
    };
    assert!(!capabilities.image_count_fits());
    capabilities.max_image_count = Some(u32::MAX);
    assert!(capabilities.image_count_fits());
    capabilities.max_image_count = None;
    capabilities.min_image_count = u32::MAX - 1;
    assert!(capabilities.image_count_fits());
}
