use minigame2::{
    ground_grid, main_camera_pose, preview_target, viewer_scene, viewer_window, Point3, HEIGHT,
    WIDTH,
};

#[test]
fn window_is_fixed_hd() {
    let w = viewer_window();
    assert_eq!(w.width, 1280);
    assert_eq!(w.height, 720);
    assert_eq!(w.width, WIDTH);
    assert_eq!(w.height, HEIGHT);
    assert_eq!(w.title, "Minigame2");
    assert!(!w.resizable);
}

#[test]
fn grid_is_ten_by_ten() {
    let g = ground_grid();
    assert_eq!(g.size, 10);
    assert_eq!(g.divisions, 10);
}

#[test]
fn preview_target_is_square() {
    let t = preview_target();
    assert_eq!(t.width, 256);
    assert_eq!(t.height, 256);
}

#[test]
fn camera_looks_at_scene_centre() {
    let p = main_camera_pose();
    assert_eq!(p.eye, Point3 { x: 0, y: 2, z: -10 });
    assert_eq!(p.target, Point3 { x: 0, y: 1, z: 0 });
    assert_ne!(p.eye, p.target);
}

#[test]
fn scene_composes_the_parts() {
    let s = viewer_scene();
    assert_eq!(s.window, viewer_window());
    assert_eq!(s.grid, ground_grid());
    assert_eq!(s.camera, main_camera_pose());
    assert_eq!(s.preview, preview_target());
    assert_eq!(s.floor_size, 5);
    assert_eq!(s.preview_priority, -1);
}

#[test]
fn grid_covers_floor() {
    let s = viewer_scene();
    assert!(s.grid.size >= s.floor_size);
}
