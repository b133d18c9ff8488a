use vantage::egl::{
    query_string, EGL_CLIENT_APIS, EGL_EXTENSIONS, EGL_HEIGHT, EGL_SUCCESS, EGL_VENDOR,
    EGL_VERSION, EGL_WIDTH,
};
use vantage::egl_display::{
    swap_interval_error, EglDisplayState, EglSurfaceState, ErrorLatch, EGL_BAD_PARAMETER,
    EGL_BAD_SURFACE,
};
use vantage::hal::{Device, Format, ImageId};

#[test]
fn query_strings_name_the_implementation() {
    assert_eq!(query_string(EGL_VENDOR, false), Some("Vantage\0"));
    assert_eq!(query_string(EGL_VERSION, false), Some("1.4 Vantage EGL 1.4\0"));
    assert_eq!(query_string(EGL_CLIENT_APIS, true), Some("OpenGL_ES \0"));
    assert!(query_string(EGL_EXTENSIONS, true).unwrap().starts_with("EGL_EXT_platform_base "));
    assert!(query_string(EGL_EXTENSIONS, false).unwrap().starts_with("EGL_KHR_create_context "));
    assert_eq!(query_string(EGL_WIDTH, false), None);
}

#[test]
fn error_is_reported_once() {
    let mut latch = ErrorLatch::new();
    assert_eq!(latch.take(), EGL_SUCCESS);
    latch.set_egl_error(EGL_BAD_SURFACE);
    latch.set_egl_error(EGL_BAD_PARAMETER);
    assert_eq!(latch.take(), EGL_BAD_PARAMETER);
    assert_eq!(latch.take(), EGL_SUCCESS);
}

#[test]
fn display_hands_out_ids_in_order_and_forgets_on_terminate() {
    let mut display = EglDisplayState::default();
    assert!(!display.is_initialized());
    assert_eq!(display.initialize(), (1, 4));
    assert!(display.is_initialized());

    let first = display.add_surface(640, 480, 7);
    let second = display.add_surface(1280, 720, 0);
    assert_eq!((first, second), (1, 2));
    let ctx = display.add_context();
    assert_eq!(ctx, 1);
    assert_eq!(display.context(ctx).map(|c| c.id), Some(1));

    let surface = display.surface(first).unwrap();
    assert_eq!((surface.width, surface.height, surface.native_window), (640, 480, 7));
    assert_eq!(surface.swap_interval, 0);
    assert_eq!(surface.hal_color_image, None);

    assert_eq!(display.remove_surface(first).map(|s| s.id), Some(first));
    assert!(display.surface(first).is_none());
    assert!(display.remove_surface(first).is_none());
    assert_eq!(display.add_surface(1, 1, 0), 3);

    display.terminate();
    assert!(!display.is_initialized());
    assert!(display.surface(second).is_none());
    assert!(display.context(ctx).is_none());
    assert_eq!(display.add_context(), 2);
}

#[test]
fn surface_query_and_resize() {
    let mut surface = EglSurfaceState::new(5, 320, 200, 0);
    assert_eq!(surface.query(EGL_WIDTH), 320);
    assert_eq!(surface.query(EGL_HEIGHT), 200);
    assert_eq!(surface.query(0x3033), 0);
    assert_eq!(surface.viewport(), (0, 0, 320, 200));

    surface.hal_color_image = Some(ImageId(9));
    surface.hal_depth_image = Some(ImageId(10));
    assert!(!surface.resize(320, 200));
    assert_eq!(surface.hal_color_image, Some(ImageId(9)));
    assert!(surface.resize(0, 100));
    assert_eq!((surface.query(EGL_WIDTH), surface.query(EGL_HEIGHT)), (1, 100));
    assert_eq!(surface.hal_color_image, None);
    assert_eq!(surface.hal_depth_image, None);

    surface.set_swap_interval(1);
    assert_eq!(surface.swap_interval, 1);
}

#[test]
fn surface_images_are_made_once_at_the_surface_size() {
    let mut device = Device::new();
    let mut display = EglDisplayState::new();
    let id = display.add_surface(4, 3, 0);
    let mut surface = display.surface(id).unwrap();

    let (color, depth) = surface.bind_images(&mut device);
    let (color, depth) = (color.unwrap(), depth.unwrap());
    assert_eq!((color, depth), (ImageId(1), ImageId(2)));
    let image = device.image(color).unwrap();
    assert_eq!((image.format, image.width, image.height), (Format::B8G8R8A8Unorm, 4, 3));
    let image = device.image(depth).unwrap();
    assert_eq!((image.format, image.width, image.height), (Format::D32Sfloat, 4, 3));

    assert_eq!(surface.bind_images(&mut device), (Some(color), Some(depth)));
    assert!(device.image(ImageId(3)).is_none());

    assert!(display.update_surface(surface));
    assert_eq!(display.surface(id).unwrap().hal_color_image, Some(color));
    assert!(!display.update_surface(EglSurfaceState::new(99, 1, 1, 0)));
}

#[test]
fn swap_interval_takes_zero_or_one_with_a_current_surface() {
    assert_eq!(swap_interval_error(2, true), Some(EGL_BAD_PARAMETER));
    assert_eq!(swap_interval_error(-1, false), Some(EGL_BAD_PARAMETER));
    assert_eq!(swap_interval_error(1, false), Some(EGL_BAD_SURFACE));
    assert_eq!(swap_interval_error(0, true), None);
    assert_eq!(swap_interval_error(1, true), None);
}
