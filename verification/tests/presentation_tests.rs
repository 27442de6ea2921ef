use rustcraft::constants::{
    COLOR_SPACE_SRGB_NONLINEAR, COMPONENT_SWIZZLE_IDENTITY, COMPOSITE_ALPHA_OPAQUE, FORMAT_B8G8R8A8_SRGB,
    IMAGE_ASPECT_COLOR, IMAGE_USAGE_COLOR_ATTACHMENT, IMAGE_VIEW_TYPE_2D, NULL_HANDLE, PRESENT_MODE_FIFO,
    PRESENT_MODE_MAILBOX, SHARING_MODE_EXCLUSIVE, UNDEFINED_EXTENT, WINDOW_HEIGHT, WINDOW_WIDTH,
};
use rustcraft::lifecycle::{DestroyCommand, ResourceKind};
use rustcraft::presentation::Presentation;
use rustcraft::surface::{Extent2D, QueueFamilyIndices, SurfaceCapabilities, SurfaceFormat, SwapChainSupportDetail};
use rustcraft::vulkan_app::VulkanApp;

fn extent(width: u32, height: u32) -> Extent2D {
    Extent2D { width, height }
}

fn capabilities(min_image_count: u32, max_image_count: u32) -> SurfaceCapabilities {
    SurfaceCapabilities {
        min_image_count,
        max_image_count,
        current_extent: extent(UNDEFINED_EXTENT, UNDEFINED_EXTENT),
        min_image_extent: extent(100, 50),
        max_image_extent: extent(1920, 1080),
        current_transform: 1,
    }
}

fn preferred() -> SurfaceFormat {
    SurfaceFormat { format: FORMAT_B8G8R8A8_SRGB, color_space: COLOR_SPACE_SRGB_NONLINEAR }
}

#[test]
fn preferred_format_is_chosen_wherever_it_stands() {
    let other = SurfaceFormat { format: 37, color_space: 0 };
    let another = SurfaceFormat { format: 44, color_space: 0 };
    assert_eq!(Presentation::choose_swapchain_format(&vec![preferred(), other]), preferred());
    assert_eq!(Presentation::choose_swapchain_format(&vec![other, preferred()]), preferred());
    assert_eq!(Presentation::choose_swapchain_format(&vec![other, another, preferred()]), preferred());
}

#[test]
fn first_format_is_chosen_without_the_preferred_one() {
    let other = SurfaceFormat { format: 37, color_space: 0 };
    let another = SurfaceFormat { format: 44, color_space: 0 };
    assert_eq!(Presentation::choose_swapchain_format(&vec![other, another]), other);
    assert_eq!(Presentation::choose_swapchain_format(&vec![another]), another);
}

#[test]
fn format_with_the_wrong_color_space_is_not_preferred() {
    let srgb_elsewhere = SurfaceFormat { format: FORMAT_B8G8R8A8_SRGB, color_space: 1000104001 };
    let unorm = SurfaceFormat { format: 44, color_space: COLOR_SPACE_SRGB_NONLINEAR };
    assert_eq!(Presentation::choose_swapchain_format(&vec![unorm, srgb_elsewhere]), unorm);
}

#[test]
fn mailbox_is_chosen_when_offered() {
    assert_eq!(Presentation::choose_swapchain_present_mode(&vec![0, 2, 1]), PRESENT_MODE_MAILBOX);
    assert_eq!(Presentation::choose_swapchain_present_mode(&vec![1]), PRESENT_MODE_MAILBOX);
}

#[test]
fn fifo_is_chosen_without_mailbox() {
    assert_eq!(Presentation::choose_swapchain_present_mode(&vec![0, 2, 3]), PRESENT_MODE_FIFO);
    assert_eq!(Presentation::choose_swapchain_present_mode(&vec![0, 3]), PRESENT_MODE_FIFO);
    assert_eq!(Presentation::choose_swapchain_present_mode(&Vec::new()), PRESENT_MODE_FIFO);
}

#[test]
fn defined_extent_is_taken_as_it_is() {
    let mut caps = capabilities(2, 0);
    caps.current_extent = extent(640, 480);
    assert_eq!(Presentation::choose_swapchain_extent(&caps, extent(800, 600)), extent(640, 480));
}

#[test]
fn undefined_extent_takes_the_window_size_inside_the_limits() {
    let caps = capabilities(2, 0);
    assert_eq!(Presentation::choose_swapchain_extent(&caps, extent(800, 600)), extent(800, 600));
}

#[test]
fn window_size_is_clamped_to_the_limits() {
    let caps = capabilities(2, 0);
    assert_eq!(Presentation::choose_swapchain_extent(&caps, extent(5000, 4000)), extent(1920, 1080));
    assert_eq!(Presentation::choose_swapchain_extent(&caps, extent(0, 0)), extent(100, 50));
    assert_eq!(Presentation::choose_swapchain_extent(&caps, extent(10, 4000)), extent(100, 1080));
    assert_eq!(Presentation::choose_swapchain_extent(&caps, extent(100, 1080)), extent(100, 1080));
}

#[test]
fn chosen_extent_lies_within_the_limits() {
    let caps = capabilities(2, 0);
    for &(width, height) in [(0u32, 0u32), (99, 51), (1921, 1079), (u32::MAX - 1, 7)].iter() {
        let chosen = Presentation::choose_swapchain_extent(&caps, extent(width, height));
        assert!(caps.min_image_extent.width <= chosen.width && chosen.width <= caps.max_image_extent.width);
        assert!(caps.min_image_extent.height <= chosen.height && chosen.height <= caps.max_image_extent.height);
    }
}

#[test]
fn application_window_opens_at_its_fixed_size() {
    assert_eq!(VulkanApp::initial_window_size(), extent(WINDOW_WIDTH, WINDOW_HEIGHT));
}

#[test]
fn application_takes_the_current_window_size_inside_the_limits() {
    let caps = capabilities(2, 0);
    assert_eq!(VulkanApp::choose_swapchain_extent(&caps, extent(800, 600)), extent(800, 600));
    assert_eq!(VulkanApp::choose_swapchain_extent(&caps, extent(1024, 768)), extent(1024, 768));
    assert_eq!(VulkanApp::choose_swapchain_extent(&caps, extent(5000, 10)), extent(1920, 50));
    let mut wide = capabilities(2, 0);
    wide.min_image_extent = extent(1, 1);
    wide.max_image_extent = extent(4096, 4096);
    assert_eq!(VulkanApp::choose_swapchain_extent(&wide, extent(1280, 720)), extent(1280, 720));
    assert_eq!(VulkanApp::choose_swapchain_extent(&wide, extent(0, 9000)), extent(1, 4096));
}

#[test]
fn application_takes_a_defined_extent_as_it_is() {
    let mut caps = capabilities(2, 0);
    caps.current_extent = extent(640, 480);
    assert_eq!(VulkanApp::choose_swapchain_extent(&caps, extent(1024, 768)), extent(640, 480));
}

#[test]
fn image_count_is_one_more_than_the_minimum_without_a_maximum() {
    assert_eq!(Presentation::choose_image_count(&capabilities(2, 0)), 3);
}

#[test]
fn image_count_is_capped_at_the_maximum() {
    assert_eq!(Presentation::choose_image_count(&capabilities(2, 2)), 2);
}

#[test]
fn image_count_below_the_maximum_is_kept() {
    assert_eq!(Presentation::choose_image_count(&capabilities(2, 3)), 3);
    assert_eq!(Presentation::choose_image_count(&capabilities(2, 8)), 3);
    assert_eq!(Presentation::choose_image_count(&capabilities(0, 0)), 1);
    assert_eq!(Presentation::choose_image_count(&capabilities(u32::MAX - 1, 0)), u32::MAX);
}

#[test]
fn swapchain_is_described_from_what_the_surface_supports() {
    let support = SwapChainSupportDetail {
        capabilities: capabilities(2, 0),
        formats: vec![SurfaceFormat { format: 44, color_space: 0 }, preferred()],
        present_modes: vec![2, 1],
    };
    let families = QueueFamilyIndices { graphics_family: Some(0), present_family: Some(0) };
    let info = Presentation::create_swapchain(&support, extent(800, 600), 77, &families);
    assert_eq!(info.surface, 77);
    assert_eq!(info.min_image_count, 3);
    assert_eq!(info.image_format, FORMAT_B8G8R8A8_SRGB);
    assert_eq!(info.image_color_space, COLOR_SPACE_SRGB_NONLINEAR);
    assert_eq!(info.image_extent, extent(800, 600));
    assert_eq!(info.image_array_layers, 1);
    assert_eq!(info.image_usage, IMAGE_USAGE_COLOR_ATTACHMENT);
    assert_eq!(info.image_sharing_mode, SHARING_MODE_EXCLUSIVE);
    assert_eq!(info.queue_family_index_count, 0);
    assert_eq!(info.queue_family_indices, Vec::<u32>::new());
    assert_eq!(info.pre_transform, 1);
    assert_eq!(info.composite_alpha, COMPOSITE_ALPHA_OPAQUE);
    assert_eq!(info.present_mode, PRESENT_MODE_MAILBOX);
    assert!(info.clipped);
    assert_eq!(info.old_swapchain, NULL_HANDLE);
}

#[test]
fn swapchain_names_both_families_when_they_differ() {
    let support = SwapChainSupportDetail {
        capabilities: capabilities(2, 2),
        formats: vec![SurfaceFormat { format: 44, color_space: 0 }],
        present_modes: vec![2],
    };
    let families = QueueFamilyIndices { graphics_family: Some(1), present_family: Some(3) };
    let info = Presentation::create_swapchain(&support, extent(10, 10), 5, &families);
    assert_eq!(info.queue_family_index_count, 2);
    assert_eq!(info.queue_family_indices, vec![1, 3]);
    assert_eq!(info.min_image_count, 2);
    assert_eq!(info.image_format, 44);
    assert_eq!(info.present_mode, PRESENT_MODE_FIFO);
    assert_eq!(info.image_extent, extent(100, 50));
}

#[test]
fn image_views_are_described_one_per_image() {
    let infos = Presentation::create_image_views(FORMAT_B8G8R8A8_SRGB, &vec![11, 12, 13]);
    assert_eq!(infos.len(), 3);
    for (i, info) in infos.iter().enumerate() {
        assert_eq!(info.image, 11 + i as u64);
        assert_eq!(info.view_type, IMAGE_VIEW_TYPE_2D);
        assert_eq!(info.format, FORMAT_B8G8R8A8_SRGB);
        assert_eq!(info.swizzle_r, COMPONENT_SWIZZLE_IDENTITY);
        assert_eq!(info.swizzle_g, COMPONENT_SWIZZLE_IDENTITY);
        assert_eq!(info.swizzle_b, COMPONENT_SWIZZLE_IDENTITY);
        assert_eq!(info.swizzle_a, COMPONENT_SWIZZLE_IDENTITY);
        assert_eq!(info.aspect_mask, IMAGE_ASPECT_COLOR);
        assert_eq!(info.base_mip_level, 0);
        assert_eq!(info.level_count, 1);
        assert_eq!(info.base_array_layer, 0);
        assert_eq!(info.layer_count, 1);
    }
    assert!(Presentation::create_image_views(50, &Vec::new()).is_empty());
}

#[test]
fn presentation_needs_a_view_for_every_image() {
    let whole = Presentation::new(1, vec![2, 3], 50, extent(8, 6), vec![4, 5]);
    let whole = whole.expect("two images with two views");
    assert_eq!(whole.swapchain, 1);
    assert_eq!(whole.swapchain_images, vec![2, 3]);
    assert_eq!(whole.swapchain_format, 50);
    assert_eq!(whole.swapchain_extent, extent(8, 6));
    assert_eq!(whole.swapchain_imageviews, vec![4, 5]);
    assert!(Presentation::new(1, vec![2, 3], 50, extent(8, 6), vec![4]).is_none());
    assert!(Presentation::new(1, Vec::new(), 50, extent(8, 6), vec![4]).is_none());
}

#[test]
fn queue_family_indices_are_complete_with_both_families() {
    let mut indices = QueueFamilyIndices::new();
    assert_eq!(indices.graphics_family, None);
    assert_eq!(indices.present_family, None);
    assert!(!indices.is_complete());
    indices.graphics_family = Some(0);
    assert!(!indices.is_complete());
    indices.present_family = Some(2);
    assert!(indices.is_complete());
}

#[test]
fn swapchain_is_released_after_its_image_views() {
    let whole = Presentation::new(1, vec![2, 3], 50, extent(8, 6), vec![4, 5]).expect("two of each");
    assert_eq!(
        whole.destroy(),
        vec![
            DestroyCommand { kind: ResourceKind::ImageView, handle: 4 },
            DestroyCommand { kind: ResourceKind::ImageView, handle: 5 },
            DestroyCommand { kind: ResourceKind::Swapchain, handle: 1 },
        ]
    );
}
