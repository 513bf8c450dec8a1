use softbuffer::error::SoftBufferError;
use softbuffer::presenter::GraphicsContextImpl;
use softbuffer::wayland::{
    pool_size, ShmAction, ShmFormat, WaylandBuffer, WaylandHandle, WaylandImpl, MAX_POOL_BYTES,
    SHM_VERSION,
};

fn handle() -> WaylandHandle {
    WaylandHandle { surface: 0x1000, display: 0x2000 }
}

fn backend() -> WaylandImpl {
    WaylandImpl::new(handle()).unwrap()
}

fn create(buffer: u64, width: i32, height: i32) -> ShmAction {
    ShmAction::CreateBuffer {
        buffer,
        offset: 0,
        width,
        height,
        stride: width * 4,
        format: ShmFormat::Xrgb8888,
    }
}

fn present(buffer: u64, len: u64) -> Vec<ShmAction> {
    vec![
        ShmAction::Write { position: 0, len },
        ShmAction::Flush,
        ShmAction::Attach { buffer, x: 0, y: 0 },
        ShmAction::Commit,
    ]
}

#[test]
fn wayland_handle_is_valid_without_null() {
    assert!(handle().is_valid());
    assert!(!WaylandHandle { surface: 0, display: 0x2000 }.is_valid());
    assert!(!WaylandHandle { surface: 0x1000, display: 0 }.is_valid());
    assert!(!WaylandHandle { surface: 0, display: 0 }.is_valid());
}

#[test]
fn wayland_new_starts_without_a_store() {
    let backend = backend();
    assert_eq!(backend.handle(), handle());
    assert_eq!(backend.buffer(), None);
    assert!(backend.store().is_empty());
    assert_eq!(backend.allocations(), 0);
}

#[test]
fn wayland_new_refuses_a_null_surface() {
    let result = WaylandImpl::new(WaylandHandle { surface: 0, display: 0x2000 });
    assert_eq!(result.unwrap_err(), SoftBufferError::InvalidHandle);
}

#[test]
fn wayland_new_refuses_a_null_display() {
    let result = WaylandImpl::new(WaylandHandle { surface: 0x1000, display: 0 });
    assert_eq!(result.unwrap_err(), SoftBufferError::InvalidHandle);
}

#[test]
fn wayland_limits_are_those_of_the_protocol() {
    assert_eq!(MAX_POOL_BYTES, i32::MAX);
    assert_eq!(SHM_VERSION, 1);
}

#[test]
fn pool_size_is_four_bytes_for_each_pixel() {
    assert_eq!(pool_size(6, 3, 2), Ok(24));
    assert_eq!(pool_size(307_200, 640, 480), Ok(1_228_800));
    assert_eq!(pool_size(1, 1, 1), Ok(4));
}

#[test]
fn pool_size_up_to_the_largest_pool() {
    // 32767 * 16384 * 4 = 2^31 - 65536
    assert_eq!(pool_size(536_854_528, 32767, 16384), Ok(2_147_418_112));
    assert!(2_147_418_112 <= MAX_POOL_BYTES);
}

#[test]
fn pool_size_refuses_a_frame_too_large() {
    // 32768 * 16384 * 4 = 2^31
    assert_eq!(pool_size(536_870_912, 32768, 16384), Err(SoftBufferError::FrameTooLarge));
    assert_eq!(
        pool_size(4_294_836_225, u16::MAX, u16::MAX),
        Err(SoftBufferError::FrameTooLarge)
    );
}

#[test]
fn pool_size_names_the_length_before_the_size() {
    assert_eq!(pool_size(1, 32768, 16384), Err(SoftBufferError::LengthMismatch));
    assert_eq!(pool_size(0, 0, 16384), Err(SoftBufferError::EmptyFrame));
}

#[test]
fn wayland_first_frame_allocates() {
    let mut backend = backend();
    let pixels = [1u32, 2, 3, 4, 5, 6];
    let plan = backend.set_buffer(&pixels, 3, 2).unwrap();
    let mut expected = vec![
        ShmAction::Resize { len: 24 },
        ShmAction::CreatePool { size: 24 },
        create(0, 3, 2),
        ShmAction::DestroyPool,
    ];
    expected.extend(present(0, 24));
    assert_eq!(plan, expected);
    assert_eq!(backend.buffer(), Some(WaylandBuffer { width: 3, height: 2, buffer: 0 }));
    assert_eq!(backend.allocations(), 1);
    assert!(backend.check_buffer_size_equals(3, 2));
    assert!(!backend.check_buffer_size_equals(2, 3));
}

#[test]
fn wayland_store_holds_the_pixels_as_bytes() {
    let mut backend = backend();
    let pixels = [0x0011_2233u32, 0xff00_00ff, 0x0000_ff00, 0x00ab_cdef];
    backend.set_buffer(&pixels, 2, 2).unwrap();
    assert_eq!(
        backend.store(),
        [
            0x33, 0x22, 0x11, 0x00, 0xff, 0x00, 0x00, 0xff, 0x00, 0xff, 0x00, 0x00, 0xef, 0xcd,
            0xab, 0x00,
        ]
    );
}

#[test]
fn wayland_store_has_no_padding_between_rows() {
    let mut backend = backend();
    let pixels: Vec<u32> = (0..15u32).collect();
    backend.set_buffer(&pixels, 3, 5).unwrap();
    assert_eq!(backend.store().len(), 3 * 5 * 4);
    for (i, pixel) in pixels.iter().enumerate() {
        assert_eq!(backend.store()[4 * i..4 * i + 4], pixel.to_le_bytes());
    }
}

#[test]
fn wayland_known_pattern_reads_back() {
    let mut backend = backend();
    let pixels = vec![0x0011_2233u32; 7 * 5];
    backend.set_buffer(&pixels, 7, 5).unwrap();
    let store = backend.store();
    assert_eq!(store.len(), 7 * 5 * 4);
    for chunk in store.chunks(4) {
        assert_eq!(chunk, [0x33, 0x22, 0x11, 0x00]);
    }
    let back: Vec<u32> = store
        .chunks(4)
        .map(|c| u32::from_le_bytes([c[0], c[1], c[2], c[3]]))
        .collect();
    assert_eq!(back, pixels);
}

#[test]
fn wayland_same_size_keeps_the_buffer() {
    let mut backend = backend();
    backend.set_buffer(&[1, 2, 3, 4, 5, 6], 3, 2).unwrap();
    let before = backend.buffer();
    let allocations = backend.allocations();
    let plan = backend.set_buffer(&[9, 8, 7, 6, 5, 4], 3, 2).unwrap();
    assert_eq!(plan, present(0, 24));
    assert_eq!(backend.buffer(), before);
    assert_eq!(backend.allocations(), allocations);
    assert_eq!(backend.store()[0..4], [9, 0, 0, 0]);
    assert_eq!(backend.store()[20..24], [4, 0, 0, 0]);
}

#[test]
fn wayland_new_size_replaces_the_buffer() {
    let mut backend = backend();
    backend.set_buffer(&[1, 2, 3, 4, 5, 6], 3, 2).unwrap();
    let plan = backend.set_buffer(&[7, 8], 1, 2).unwrap();
    let mut expected = vec![
        ShmAction::Resize { len: 8 },
        ShmAction::CreatePool { size: 8 },
        create(1, 1, 2),
        ShmAction::DestroyPool,
        ShmAction::Release { buffer: 0 },
    ];
    expected.extend(present(1, 8));
    assert_eq!(plan, expected);
    assert_eq!(backend.buffer(), Some(WaylandBuffer { width: 1, height: 2, buffer: 1 }));
    assert_eq!(backend.allocations(), 2);
    assert_eq!(backend.store(), [7, 0, 0, 0, 8, 0, 0, 0]);
}

#[test]
fn wayland_swapped_sides_are_another_size() {
    let mut backend = backend();
    backend.set_buffer(&[1, 2, 3, 4, 5, 6], 3, 2).unwrap();
    let plan = backend.set_buffer(&[1, 2, 3, 4, 5, 6], 2, 3).unwrap();
    assert_eq!(plan.len(), 9);
    assert_eq!(plan[2], create(1, 2, 3));
    assert_eq!(backend.buffer(), Some(WaylandBuffer { width: 2, height: 3, buffer: 1 }));
}

#[test]
fn wayland_back_to_an_earlier_size_allocates_again() {
    let mut backend = backend();
    backend.set_buffer(&[1, 2], 2, 1).unwrap();
    backend.set_buffer(&[1], 1, 1).unwrap();
    let plan = backend.set_buffer(&[3, 4], 2, 1).unwrap();
    assert_eq!(plan[2], create(2, 2, 1));
    assert_eq!(plan[4], ShmAction::Release { buffer: 1 });
    assert_eq!(backend.allocations(), 3);
}

#[test]
fn wayland_write_comes_before_attach() {
    let mut backend = backend();
    for (pixels, width, height) in [(vec![0u32; 6], 3u16, 2u16), (vec![0; 6], 3, 2), (vec![0; 4], 4, 1)] {
        let plan = backend.set_buffer(&pixels, width, height).unwrap();
        let write = plan.iter().position(|a| matches!(a, ShmAction::Write { .. })).unwrap();
        let flush = plan.iter().position(|a| matches!(a, ShmAction::Flush)).unwrap();
        let attach = plan.iter().position(|a| matches!(a, ShmAction::Attach { .. })).unwrap();
        let commit = plan.iter().position(|a| matches!(a, ShmAction::Commit)).unwrap();
        assert!(write < flush && flush < attach && attach < commit);
        assert_eq!(commit, plan.len() - 1);
    }
}

#[test]
fn wayland_wrong_length_is_refused() {
    let mut backend = backend();
    assert_eq!(backend.set_buffer(&[1, 2, 3], 2, 2), Err(SoftBufferError::LengthMismatch));
    assert_eq!(backend.set_buffer(&[1, 2, 3, 4, 5], 2, 2), Err(SoftBufferError::LengthMismatch));
    assert_eq!(backend.set_buffer(&[], 2, 2), Err(SoftBufferError::LengthMismatch));
    assert_eq!(backend.buffer(), None);
    assert!(backend.store().is_empty());
    assert_eq!(backend.allocations(), 0);
}

#[test]
fn wayland_refused_frame_leaves_the_store() {
    let mut backend = backend();
    backend.set_buffer(&[1, 2, 3, 4], 2, 2).unwrap();
    let buffer = backend.buffer();
    let store = backend.store().to_vec();
    assert_eq!(backend.set_buffer(&[9, 9, 9], 2, 2), Err(SoftBufferError::LengthMismatch));
    assert_eq!(backend.set_buffer(&[], 0, 2), Err(SoftBufferError::EmptyFrame));
    assert_eq!(backend.buffer(), buffer);
    assert_eq!(backend.store(), store);
    assert_eq!(backend.allocations(), 1);
}

#[test]
fn wayland_frame_without_area_is_refused() {
    let mut backend = backend();
    assert_eq!(backend.set_buffer(&[], 0, 4), Err(SoftBufferError::EmptyFrame));
    assert_eq!(backend.set_buffer(&[], 4, 0), Err(SoftBufferError::EmptyFrame));
    assert_eq!(backend.set_buffer(&[], 0, 0), Err(SoftBufferError::EmptyFrame));
    assert_eq!(backend.set_buffer(&[1], 0, 4), Err(SoftBufferError::LengthMismatch));
    assert_eq!(backend.buffer(), None);
}

#[test]
fn wayland_release_gives_up_the_buffer() {
    let mut backend = backend();
    backend.set_buffer(&[1, 2, 3, 4], 2, 2).unwrap();
    assert_eq!(
        backend.release(),
        vec![ShmAction::Release { buffer: 0 }, ShmAction::Resize { len: 0 }]
    );
    assert_eq!(backend.buffer(), None);
    assert!(backend.store().is_empty());
    assert_eq!(backend.allocations(), 1);
    assert_eq!(backend.release(), vec![]);
}

#[test]
fn wayland_release_of_a_new_backend_does_nothing() {
    let mut backend = backend();
    assert_eq!(backend.release(), vec![]);
    assert_eq!(backend.buffer(), None);
    assert_eq!(backend.allocations(), 0);
}

#[test]
fn wayland_frame_after_release_allocates_anew() {
    let mut backend = backend();
    backend.set_buffer(&[1, 2, 3, 4], 2, 2).unwrap();
    backend.release();
    let plan = backend.set_buffer(&[5, 6, 7, 8], 2, 2).unwrap();
    let mut expected = vec![
        ShmAction::Resize { len: 16 },
        ShmAction::CreatePool { size: 16 },
        create(1, 2, 2),
        ShmAction::DestroyPool,
    ];
    expected.extend(present(1, 16));
    assert_eq!(plan, expected);
    assert_eq!(backend.store()[0..4], [5, 0, 0, 0]);
}

#[test]
fn wayland_create_and_release_in_turn_leave_nothing() {
    for _ in 0..50 {
        let mut backend = backend();
        let mut live: Vec<u64> = Vec::new();
        for (pixels, width, height) in [(vec![0u32; 4], 2u16, 2u16), (vec![0; 4], 2, 2), (vec![0; 3], 3, 1)] {
            for action in backend.set_buffer(&pixels, width, height).unwrap() {
                match action {
                    ShmAction::CreateBuffer { buffer, .. } => live.push(buffer),
                    ShmAction::Release { buffer } => live.retain(|b| *b != buffer),
                    _ => {}
                }
            }
            assert_eq!(live, vec![backend.buffer().unwrap().buffer]);
        }
        for action in backend.release() {
            if let ShmAction::Release { buffer } = action {
                live.retain(|b| *b != buffer);
            }
        }
        assert!(live.is_empty());
        assert!(backend.store().is_empty());
    }
}

/// Performs on a file in memory what a plan asks of the backing file.
fn perform_on_file(file: &mut Vec<u8>, store: &[u8], plan: &[ShmAction]) {
    for action in plan {
        match *action {
            ShmAction::Resize { len } => file.resize(len as usize, 0),
            ShmAction::Write { position, len } => {
                let start = position as usize;
                let end = start + len as usize;
                if file.len() < end {
                    file.resize(end, 0);
                }
                file[start..end].copy_from_slice(&store[..len as usize]);
            }
            _ => {}
        }
    }
}

#[test]
fn wayland_plan_leaves_the_frame_in_the_file() {
    let mut backend = backend();
    let mut file: Vec<u8> = Vec::new();
    let frames: [(Vec<u32>, u16, u16); 4] = [
        (vec![0x0011_2233; 12], 4, 3),
        (vec![0x00ff_00ff; 12], 4, 3),
        (vec![0x0000_0001; 2], 2, 1),
        (vec![0x00ab_cdef; 20], 5, 4),
    ];
    for (pixels, width, height) in frames {
        let plan = backend.set_buffer(&pixels, width, height).unwrap();
        perform_on_file(&mut file, backend.store(), &plan);
        assert_eq!(file.len(), width as usize * height as usize * 4);
        let expected: Vec<u8> = pixels.iter().flat_map(|p| p.to_le_bytes()).collect();
        assert_eq!(file, expected);
    }
    let plan = backend.release();
    perform_on_file(&mut file, backend.store(), &plan);
    assert!(file.is_empty());
}
