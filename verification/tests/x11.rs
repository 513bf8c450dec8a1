use softbuffer::error::SoftBufferError;
use softbuffer::presenter::GraphicsContextImpl;
use softbuffer::x11::{BlitAction, ImageDescriptor, ImageFormat, X11Impl, XlibHandle, MAX_DEPTH};

fn window() -> XlibHandle {
    XlibHandle { window: 0x40_0001, display: 0x2000 }
}

#[test]
fn xlib_handle_is_valid_without_null() {
    assert!(window().is_valid());
    assert!(!XlibHandle { window: 0, display: 0x2000 }.is_valid());
    assert!(!XlibHandle { window: 0x40_0001, display: 0 }.is_valid());
}

#[test]
fn x11_new_keeps_handle_and_depth() {
    let backend = X11Impl::new(window(), 24).unwrap();
    assert_eq!(backend.handle(), window());
    assert_eq!(backend.depth(), 24);
}

#[test]
fn x11_new_refuses_a_null_display() {
    let result = X11Impl::new(XlibHandle { window: 0x40_0001, display: 0 }, 24);
    assert_eq!(result.unwrap_err(), SoftBufferError::InvalidHandle);
}

#[test]
fn x11_new_refuses_a_window_of_zero() {
    let result = X11Impl::new(XlibHandle { window: 0, display: 0x2000 }, 24);
    assert_eq!(result.unwrap_err(), SoftBufferError::InvalidHandle);
}

#[test]
fn x11_new_names_the_handle_before_the_depth() {
    let result = X11Impl::new(XlibHandle { window: 0, display: 0 }, 0);
    assert_eq!(result.unwrap_err(), SoftBufferError::InvalidHandle);
}

#[test]
fn x11_new_refuses_a_depth_out_of_range() {
    for depth in [0, -1, 33, i32::MIN, i32::MAX] {
        assert_eq!(X11Impl::new(window(), depth).unwrap_err(), SoftBufferError::UnsupportedDepth);
    }
}

#[test]
fn x11_new_accepts_every_depth_in_range() {
    for depth in 1..=MAX_DEPTH {
        assert_eq!(X11Impl::new(window(), depth).unwrap().depth(), depth);
    }
}

#[test]
fn x11_plan_wraps_draws_detaches_destroys() {
    let mut backend = X11Impl::new(window(), 24).unwrap();
    let plan = backend.set_buffer(&[1, 2, 3, 4, 5, 6], 3, 2).unwrap();
    assert_eq!(
        plan,
        vec![
            BlitAction::CreateImage {
                image: ImageDescriptor {
                    depth: 24,
                    format: ImageFormat::ZPixmap,
                    offset: 0,
                    width: 3,
                    height: 2,
                    bitmap_pad: 32,
                    bytes_per_line: 12,
                },
            },
            BlitAction::PutImage { src_x: 0, src_y: 0, dest_x: 0, dest_y: 0, width: 3, height: 2 },
            BlitAction::DetachData,
            BlitAction::DestroyImage,
        ]
    );
}

#[test]
fn x11_row_stride_of_the_widest_frame() {
    let mut backend = X11Impl::new(window(), 32).unwrap();
    let pixels = vec![0u32; 65535];
    let plan = backend.set_buffer(&pixels, 65535, 1).unwrap();
    match plan[0] {
        BlitAction::CreateImage { image } => {
            assert_eq!(image.bytes_per_line, 262_140);
            assert_eq!(image.width, 65535);
            assert_eq!(image.height, 1);
            assert_eq!(image.depth, 32);
        }
        _ => panic!("the plan begins with the image"),
    }
}

#[test]
fn x11_same_frame_twice_gives_the_same_plan() {
    let mut backend = X11Impl::new(window(), 24).unwrap();
    let first = backend.set_buffer(&[1, 2], 2, 1).unwrap();
    let second = backend.set_buffer(&[3, 4], 2, 1).unwrap();
    assert_eq!(first, second);
    assert_eq!(backend.depth(), 24);
    assert_eq!(backend.handle(), window());
}

#[test]
fn x11_wrong_length_is_refused() {
    let mut backend = X11Impl::new(window(), 24).unwrap();
    assert_eq!(backend.set_buffer(&[1, 2, 3], 2, 2), Err(SoftBufferError::LengthMismatch));
    assert_eq!(backend.set_buffer(&[1, 2, 3, 4, 5], 2, 2), Err(SoftBufferError::LengthMismatch));
    assert_eq!(backend.set_buffer(&[1], 0, 2), Err(SoftBufferError::LengthMismatch));
}

#[test]
fn x11_frame_without_area_is_refused() {
    let mut backend = X11Impl::new(window(), 24).unwrap();
    assert_eq!(backend.set_buffer(&[], 0, 4), Err(SoftBufferError::EmptyFrame));
    assert_eq!(backend.set_buffer(&[], 4, 0), Err(SoftBufferError::EmptyFrame));
    assert_eq!(backend.set_buffer(&[], 0, 0), Err(SoftBufferError::EmptyFrame));
}
