//! Fixed scene description for a small 3D viewer.
//!
//! The viewer itself is a thin program over a host game engine: it opens a
//! window, installs camera and inspector plugins, and spawns a floor plane, a
//! grid overlay and a camera rig.  All rendering and input handling belongs
//! to the engine.  What is this crate's own is the scene description: the
//! plain values the program feeds to the engine, gathered here with their
//! well-formedness stated and the exact values pinned down in contracts.

use vstd::prelude::*;

verus! {

/// Width of the application window, in pixels.
pub const WIDTH: u32 = 1280;

/// Height of the application window, in pixels.
pub const HEIGHT: u32 = 720;

/// Description of the application window, in physical pixels.
#[derive(Clone, Debug, PartialEq, Eq)]
pub struct WindowConfig {
    pub width: u32,
    pub height: u32,
    pub title: String,
    pub resizable: bool,
}

impl WindowConfig {
    /// A window must have a visible area.
    pub open spec fn valid(self) -> bool {
        self.width > 0 && self.height > 0
    }
}

/// The viewer's window: a fixed 1280 by 720 surface that the user cannot
/// resize, titled after the game.
pub fn viewer_window() -> (w: WindowConfig)
    ensures
        w.width == WIDTH,
        w.height == HEIGHT,
        w.title@ == "Minigame2"@,
        !w.resizable,
        w.valid(),
{
    WindowConfig {
        width: WIDTH,
        height: HEIGHT,
        title: String::from_str("Minigame2"),
        resizable: false,
    }
}

/// Parameters of the grid overlay drawn over the floor: the edge length of
/// the covered square and the number of cells along each edge.
#[derive(Clone, Copy, Debug, PartialEq, Eq)]
pub struct GridConfig {
    pub size: u32,
    pub divisions: u32,
}

impl GridConfig {
    /// A grid must have extent and at least one cell.
    pub open spec fn valid(self) -> bool {
        self.size > 0 && self.divisions > 0
    }
}

/// The grid overlay: a square of edge length 10, ten cells to a side.
pub fn ground_grid() -> (g: GridConfig)
    ensures
        g.size == 10,
        g.divisions == 10,
        g.valid(),
{
    GridConfig { size: 10, divisions: 10 }
}

/// Size of the offscreen image that the secondary camera renders into.
#[derive(Clone, Copy, Debug, PartialEq, Eq)]
pub struct RenderTargetConfig {
    pub width: u32,
    pub height: u32,
}

impl RenderTargetConfig {
    /// A render target must have a drawable area.
    pub open spec fn valid(self) -> bool {
        self.width > 0 && self.height > 0
    }
}

/// The secondary camera's render target: a square 256 by 256 image.
pub fn preview_target() -> (t: RenderTargetConfig)
    ensures
        t.width == 256,
        t.height == 256,
        t.valid(),
{
    RenderTargetConfig { width: 256, height: 256 }
}

/// A point of the scene with whole-number coordinates.
#[derive(Clone, Copy, Debug, PartialEq, Eq)]
pub struct Point3 {
    pub x: i32,
    pub y: i32,
    pub z: i32,
}

/// Placement of a camera: where it stands and what it looks at.
#[derive(Clone, Copy, Debug, PartialEq, Eq)]
pub struct CameraPose {
    pub eye: Point3,
    pub target: Point3,
}

impl CameraPose {
    /// A camera cannot look at the point it stands on: the view direction
    /// would be undefined.
    pub open spec fn valid(self) -> bool {
        self.eye != self.target
    }
}

/// The main camera: behind the scene at (0, 2, -10), looking at a point just
/// above the floor's centre.
pub fn main_camera_pose() -> (p: CameraPose)
    ensures
        p.eye == (Point3 { x: 0, y: 2, z: -10i32 }),
        p.target == (Point3 { x: 0, y: 1, z: 0 }),
        p.valid(),
{
    CameraPose {
        eye: Point3 { x: 0, y: 2, z: -10i32 },
        target: Point3 { x: 0, y: 1, z: 0 },
    }
}

/// Everything the viewer fixes about its scene: the window, the edge length
/// of the floor plane, the grid overlay, the main camera's placement, and
/// the secondary camera's render target with its render priority.
#[derive(Clone, Debug, PartialEq, Eq)]
pub struct SceneConfig {
    pub window: WindowConfig,
    pub floor_size: u32,
    pub grid: GridConfig,
    pub camera: CameraPose,
    pub preview: RenderTargetConfig,
    pub preview_priority: isize,
}

impl SceneConfig {
    /// Each part of the scene is well formed, and the grid overlay covers
    /// the floor plane.
    pub open spec fn valid(self) -> bool {
        &&& self.window.valid()
        &&& self.floor_size > 0
        &&& self.grid.valid()
        &&& self.grid.size >= self.floor_size
        &&& self.camera.valid()
        &&& self.preview.valid()
    }
}

/// The whole scene the viewer builds at startup: the fixed window, a floor
/// plane of edge length 5, the grid overlay, the main camera, and a preview
/// camera rendering into an offscreen square at a priority below the main
/// camera's.
pub fn viewer_scene() -> (s: SceneConfig)
    ensures
        s.window.width == WIDTH,
        s.window.height == HEIGHT,
        s.window.title@ == "Minigame2"@,
        !s.window.resizable,
        s.floor_size == 5,
        s.grid.size == 10,
        s.grid.divisions == 10,
        s.camera.eye == (Point3 { x: 0, y: 2, z: -10i32 }),
        s.camera.target == (Point3 { x: 0, y: 1, z: 0 }),
        s.preview.width == 256,
        s.preview.height == 256,
        s.preview_priority == -1,
        s.valid(),
{
    SceneConfig {
        window: viewer_window(),
        floor_size: 5,
        grid: ground_grid(),
        camera: main_camera_pose(),
        preview: preview_target(),
        preview_priority: -1,
    }
}

} // verus!
