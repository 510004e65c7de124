use fyrox_ui_sdl3::scissor::{ClipBounds, DeviceRect, ScissorRect, DEVICE_MAX, DEVICE_MIN};

fn snapped(x: f32, y: f32, width: f32, height: f32) -> ClipBounds {
    ClipBounds {
        x: x.floor() as i64,
        y: y.floor() as i64,
        width: width.ceil() as i64,
        height: height.ceil() as i64,
    }
}

#[test]
fn whole_pixel_bounds_are_kept() {
    assert_eq!(
        snapped(0.0, 0.0, 100.0, 50.0).scissor(),
        ScissorRect { x: 0, y: 0, width: 100, height: 50 }
    );
}

#[test]
fn fractional_bounds_grow_outward() {
    assert_eq!(
        snapped(10.7, -3.2, 99.1, 0.5).scissor(),
        ScissorRect { x: 10, y: -4, width: 100, height: 1 }
    );
}

#[test]
fn negative_size_is_empty() {
    let s = snapped(5.0, 5.0, -20.0, -0.5).scissor();
    assert_eq!(s, ScissorRect { x: 5, y: 5, width: 0, height: 0 });
    let s = (ClipBounds { x: 0, y: 0, width: i64::MIN, height: -1 }).scissor();
    assert_eq!((s.width, s.height), (0, 0));
}

#[test]
fn scissor_agrees_with_float_casts() {
    let values = [
        0.0f32,
        -0.0,
        0.25,
        -0.25,
        1.0,
        1e9,
        -1e9,
        3e9,
        5e9,
        -5e9,
        1e30,
        -1e30,
        f32::INFINITY,
        f32::NEG_INFINITY,
        f32::NAN,
        f32::MAX,
        f32::MIN,
    ];
    for &p in &values {
        for &s in &values {
            let r = snapped(p, p, s, s).scissor();
            assert_eq!(r.x, p.floor() as i32);
            assert_eq!(r.y, p.floor() as i32);
            assert_eq!(r.width, s.ceil().max(0.0) as u32);
            assert_eq!(r.height, s.ceil().max(0.0) as u32);
        }
    }
}

#[test]
fn scissor_saturates_at_the_ends() {
    let s = (ClipBounds { x: i64::MAX, y: i64::MIN, width: i64::MAX, height: 1 << 32 }).scissor();
    assert_eq!(s, ScissorRect { x: i32::MAX, y: i32::MIN, width: u32::MAX, height: u32::MAX });
    let s = (ClipBounds { x: 1 << 31, y: -(1 << 31) - 1, width: u32::MAX as i64, height: 0 })
        .scissor();
    assert_eq!(s, ScissorRect { x: i32::MAX, y: i32::MIN, width: u32::MAX, height: 0 });
}

#[test]
fn device_rect_keeps_ordinary_rectangles() {
    let s = ScissorRect { x: 0, y: 0, width: 100, height: 50 };
    assert_eq!(s.device_rect(), DeviceRect { x: 0, y: 0, width: 100, height: 50 });
    let s = ScissorRect { x: -7, y: 12, width: 1, height: 1 };
    assert_eq!(s.device_rect(), DeviceRect { x: -7, y: 12, width: 1, height: 1 });
}

#[test]
fn device_rect_is_never_empty() {
    let s = ScissorRect { x: 3, y: 4, width: 0, height: 0 };
    assert_eq!(s.device_rect(), DeviceRect { x: 3, y: 4, width: 1, height: 1 });
}

#[test]
fn device_rect_clamps_to_sdl_limits() {
    assert_eq!(DEVICE_MAX, i32::MAX / 2);
    assert_eq!(DEVICE_MIN, i32::MIN / 2);
    assert_eq!(DEVICE_MAX as u32, sdl3::rect::max_int_value());
    assert_eq!(DEVICE_MIN, sdl3::rect::min_int_value());
    let s = ScissorRect { x: i32::MAX, y: i32::MIN, width: u32::MAX, height: 1 << 30 };
    assert_eq!(
        s.device_rect(),
        DeviceRect { x: DEVICE_MAX, y: DEVICE_MIN, width: DEVICE_MAX as u32, height: DEVICE_MAX as u32 }
    );
    let s = ScissorRect { x: DEVICE_MAX, y: DEVICE_MIN, width: DEVICE_MAX as u32, height: 2 };
    assert_eq!(
        s.device_rect(),
        DeviceRect { x: DEVICE_MAX, y: DEVICE_MIN, width: DEVICE_MAX as u32, height: 2 }
    );
}

#[test]
fn device_rect_matches_the_sdl_rectangle() {
    let cases = [
        (0, 0, 0u32, 0u32),
        (5, -5, 17, 4),
        (i32::MIN, i32::MAX, u32::MAX, 0),
        (DEVICE_MIN - 1, DEVICE_MAX + 1, DEVICE_MAX as u32 + 1, 1),
    ];
    for (x, y, width, height) in cases {
        let d = (ScissorRect { x, y, width, height }).device_rect();
        let r = sdl3::rect::Rect::new(x, y, width, height);
        assert_eq!((d.x, d.y, d.width, d.height), (r.x(), r.y(), r.width(), r.height()));
        let again = (ScissorRect { x: d.x, y: d.y, width: d.width, height: d.height }).device_rect();
        assert_eq!(again, d);
        assert!(d.width as i32 >= 0 && d.height as i32 >= 0);
    }
}
