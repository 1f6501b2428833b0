use pathtracer::context::SurfaceConfig;
use pathtracer::pathtracer::{output_dim, render_target_dim};

#[test]
fn render_target_scales_and_tile_aligns() {
    // floor(size * 3/10 / 8) * 8 in each dimension.
    assert_eq!(render_target_dim(800, 3, 10), 240);
    assert_eq!(render_target_dim(600, 3, 10), 176);
    assert_eq!(render_target_dim(1920, 3, 10), 576);
    assert_eq!(render_target_dim(1080, 3, 10), 320);
    assert_eq!(render_target_dim(0, 3, 10), 0);
}

#[test]
fn render_target_rounds_down_to_tile() {
    assert_eq!(render_target_dim(7, 1, 1), 0);
    assert_eq!(render_target_dim(15, 1, 1), 8);
    assert_eq!(render_target_dim(u32::MAX, 1, 1), u32::MAX - 7);
}

#[test]
fn tiny_windows_get_a_single_tile_target() {
    // 26 * 3/10 = 7, which tile-aligns to zero; the output image is clamped
    // to one full tile because a zero-area image cannot be created.
    assert_eq!(output_dim(26, 3, 10), 8);
    assert_eq!(output_dim(0, 3, 10), 8);
    // Above one tile the clamp never engages.
    assert_eq!(output_dim(800, 3, 10), 240);
    assert_eq!(output_dim(600, 3, 10), 176);
}

#[test]
fn zero_area_resize_is_rejected() {
    let mut cfg = SurfaceConfig { width: 800, height: 600 };
    assert!(!cfg.apply_resize(0, 0));
    assert_eq!(cfg, SurfaceConfig { width: 800, height: 600 });
    assert!(!cfg.apply_resize(0, 480));
    assert!(!cfg.apply_resize(640, 0));
    assert_eq!(cfg, SurfaceConfig { width: 800, height: 600 });
    // A render target recreated from the unchanged configuration keeps its
    // pre-resize dimensions.
    assert_eq!(render_target_dim(cfg.width, 3, 10), 240);
    assert_eq!(render_target_dim(cfg.height, 3, 10), 176);
}

#[test]
fn valid_resize_is_adopted() {
    let mut cfg = SurfaceConfig { width: 800, height: 600 };
    assert!(cfg.apply_resize(1024, 768));
    assert_eq!(cfg, SurfaceConfig { width: 1024, height: 768 });
}
