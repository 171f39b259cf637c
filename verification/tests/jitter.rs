use render_core::jitter::{halton, jitter_offset, JitterOffset, JITTER_SAMPLES};

#[test]
fn halton_base_two() {
    let samples: Vec<(u64, u64)> = (1..=8).map(|i| halton(i, 2)).collect();
    assert_eq!(
        samples,
        vec![(1, 2), (1, 4), (3, 4), (1, 8), (5, 8), (3, 8), (7, 8), (1, 16)]
    );
}

#[test]
fn halton_base_three() {
    let samples: Vec<(u64, u64)> = (1..=8).map(|i| halton(i, 3)).collect();
    assert_eq!(
        samples,
        vec![(1, 3), (2, 3), (1, 9), (4, 9), (7, 9), (2, 9), (5, 9), (8, 9)]
    );
}

#[test]
fn halton_edges() {
    assert_eq!(halton(0, 2), (0, 1));
    assert_eq!(halton(0, 65536), (0, 1));
    assert_eq!(halton(10, 10), (1, 100));
    assert_eq!(halton(123, 10), (321, 1000));
    assert_eq!(halton(u32::MAX, 2), (u32::MAX as u64, 1u64 << 32));
    assert_eq!(halton(u32::MAX, 65536), ((65535u64 << 16) | 65535, 1u64 << 32));
}

#[test]
fn first_jitter_offset_is_exact() {
    assert_eq!(
        jitter_offset(0, 1920, 1080),
        JitterOffset { x_num: 0, x_den: 2 * 2 * 1920, y_num: -1, y_den: 2 * 3 * 1080 }
    );
    assert_eq!(
        jitter_offset(2, 100, 50),
        JitterOffset { x_num: 2, x_den: 2 * 4 * 100, y_num: -7, y_den: 2 * 9 * 50 }
    );
    assert_eq!(
        jitter_offset(7, 1, 1),
        JitterOffset { x_num: -14, x_den: 32, y_num: 7, y_den: 18 }
    );
}

#[test]
fn jitter_repeats_every_eight_frames() {
    assert_eq!(JITTER_SAMPLES, 8);
    for frame in 0..32u64 {
        assert_eq!(jitter_offset(frame, 1920, 1080), jitter_offset(frame + 8, 1920, 1080));
    }
    assert_eq!(jitter_offset(u64::MAX, 640, 480), jitter_offset(7, 640, 480));
    let distinct: std::collections::BTreeSet<(i64, u64)> =
        (0..8).map(|f| jitter_offset(f, 640, 480)).map(|o| (o.x_num, o.x_den)).collect();
    assert_eq!(distinct.len(), 8);
}

#[test]
fn jitter_stays_within_half_a_pixel() {
    for (w, h) in [(1u32, 1u32), (1920, 1080), (u32::MAX, u32::MAX), (7, 3)] {
        for frame in 0..8u64 {
            let o = jitter_offset(frame, w, h);
            assert!(o.x_den > 0 && o.y_den > 0);
            assert!(2 * (w as i128) * (o.x_num as i128).abs() <= o.x_den as i128);
            assert!(2 * (h as i128) * (o.y_num as i128).abs() <= o.y_den as i128);
            let x = o.x_num as f64 / o.x_den as f64;
            let y = o.y_num as f64 / o.y_den as f64;
            assert!(x.abs() <= 0.5 / w as f64);
            assert!(y.abs() <= 0.5 / h as f64);
        }
    }
}
