//! Configuration of the renderer and of the application around it: extents, engine
//! and backend settings, the plugins and systems the application registers, and the
//! components a scene entity carries.

use vstd::prelude::*;
use crate::frames::RenderEngineConfig;
use crate::resources::{MaterialHandle, MeshHandle};

verus! {

/// `VkExtent2D`.
#[derive(Debug, Clone, Copy, PartialEq, Eq, Structural)]
pub struct Extent2D {
    pub width: u32,
    pub height: u32,
}

/// Sizes of the offscreen targets the scene is drawn into and of the window they are
/// copied to.
#[derive(Debug, Clone, Copy, PartialEq, Eq, Structural)]
pub struct WorldRendererConfig {
    pub draw_extent: Extent2D,
    pub window_extent: Extent2D,
}

/// Settings of the render backend.
#[derive(Debug, Clone, Copy)]
pub struct RenderBackendConfig {
    pub swapchain_extent: [u32; 2],
    pub debug: bool,
}

/// A buffer the Vulkan backend owns.
pub trait VulkanBuffer {
}

/// The engine settings the application starts with: validation on, two frames in
/// flight.
pub fn window_engine_config() -> (r: RenderEngineConfig)
    ensures
        r.debug,
        r.frames_in_flight == 2,
{
    RenderEngineConfig { debug: true, frames_in_flight: 2 }
}

/// The extent to create the renderer with for a window of the given inner size, or
/// none while the size is not known yet: zero, or `u32::MAX` (Wayland's sentinel for
/// an unknown size).
pub fn initial_window_extent(width: u32, height: u32) -> (r: Option<Extent2D>)
    ensures
        r == (if width == 0 || height == 0 || width == u32::MAX || height == u32::MAX {
            None::<Extent2D>
        } else {
            Some(Extent2D { width, height })
        }),
{
    if width == 0 || height == 0 || width == u32::MAX || height == u32::MAX {
        None
    } else {
        Some(Extent2D { width, height })
    }
}

/// The renderer draws at the window's size and presents to it.
pub fn world_renderer_config_for_window(extent: Extent2D) -> (r: WorldRendererConfig)
    ensures
        r.draw_extent == extent,
        r.window_extent == extent,
{
    WorldRendererConfig { draw_extent: extent, window_extent: extent }
}

/// The new window extent after a resize to the given physical size; a minimized
/// window (zero width or height) is ignored.
pub fn resize_extent(width: u32, height: u32) -> (r: Option<Extent2D>)
    ensures
        r == (if width == 0 || height == 0 {
            None::<Extent2D>
        } else {
            Some(Extent2D { width, height })
        }),
{
    if width == 0 || height == 0 {
        None
    } else {
        Some(Extent2D { width, height })
    }
}

/// The region of the drawn image that is copied to the window: what both hold.
pub fn copy_extent(window_extent: Extent2D, draw_extent: Extent2D) -> (r: Extent2D)
    ensures
        r.width == if window_extent.width <= draw_extent.width { window_extent.width } else { draw_extent.width },
        r.height == if window_extent.height <= draw_extent.height { window_extent.height } else { draw_extent.height },
{
    Extent2D {
        width: if window_extent.width <= draw_extent.width { window_extent.width } else { draw_extent.width },
        height: if window_extent.height <= draw_extent.height { window_extent.height } else { draw_extent.height },
    }
}

/// The largest side of a swapchain image the engine asks for.
pub const MAX_SWAPCHAIN_SIDE: u32 = 16384;

/// `v` clamped to `1..=MAX_SWAPCHAIN_SIDE`.
pub open spec fn clamp_side(v: u32) -> u32 {
    if v < 1 {
        1
    } else if v > MAX_SWAPCHAIN_SIDE {
        MAX_SWAPCHAIN_SIDE
    } else {
        v
    }
}

/// The swapchain extent the engine falls back to when the surface does not fix one:
/// the window's inner size, each side clamped to `1..=16384`.
pub fn swapchain_fallback_extent(width: u32, height: u32) -> (r: Extent2D)
    ensures
        r == (Extent2D { width: clamp_side(width), height: clamp_side(height) }),
{
    let w = if width < 1 {
        1
    } else if width > MAX_SWAPCHAIN_SIDE {
        MAX_SWAPCHAIN_SIDE
    } else {
        width
    };
    let h = if height < 1 {
        1
    } else if height > MAX_SWAPCHAIN_SIDE {
        MAX_SWAPCHAIN_SIDE
    } else {
        height
    };
    Extent2D { width: w, height: h }
}

/// The mesh a scene entity draws.
#[derive(Debug, Clone, Copy, PartialEq, Eq, Structural)]
pub struct Mesh(pub MeshHandle);

/// The material a scene entity draws with.
#[derive(Debug, Clone, Copy, PartialEq, Eq, Structural)]
pub struct Material(pub MaterialHandle);

/// One plugin of the default plugin group.
#[derive(Debug, Clone, PartialEq, Eq)]
pub enum DefaultPlugin {
    /// The primary window, with its title and the default resolution.
    Window { title: String },
    Accessibility,
    Winit,
    Input,
    Render,
    TaskPool,
    FrameCount,
    Time,
    Log,
}

/// The plugins an application needs to open a window and render with lantir.
pub struct LantirDefaultPlugins {
    pub title: String,
}

/// The variant of a default plugin, without its settings.
pub open spec fn plugin_kind(p: DefaultPlugin) -> int {
    match p {
        DefaultPlugin::Window { .. } => 0,
        DefaultPlugin::Accessibility => 1,
        DefaultPlugin::Winit => 2,
        DefaultPlugin::Input => 3,
        DefaultPlugin::Render => 4,
        DefaultPlugin::TaskPool => 5,
        DefaultPlugin::FrameCount => 6,
        DefaultPlugin::Time => 7,
        DefaultPlugin::Log => 8,
    }
}

impl LantirDefaultPlugins {
    /// The group in the order it is added: window (with this title), accessibility,
    /// winit, input and render; then task pool, frame count and time; then logging.
    pub fn build(self) -> (r: Vec<DefaultPlugin>)
        ensures
            r@.len() == 9,
            forall|i: int| 0 <= i < 9 ==> plugin_kind(#[trigger] r@[i]) == i,
            r@[0] matches DefaultPlugin::Window { title } && title@ == self.title@,
    {
        let mut r: Vec<DefaultPlugin> = Vec::new();
        r.push(DefaultPlugin::Window { title: self.title });
        r.push(DefaultPlugin::Accessibility);
        r.push(DefaultPlugin::Winit);
        r.push(DefaultPlugin::Input);
        r.push(DefaultPlugin::Render);
        r.push(DefaultPlugin::TaskPool);
        r.push(DefaultPlugin::FrameCount);
        r.push(DefaultPlugin::Time);
        r.push(DefaultPlugin::Log);
        r
    }
}

/// The schedules the renderer's systems run in.
#[derive(Debug, Clone, Copy, PartialEq, Eq, Structural)]
pub enum RenderSchedule {
    PostStartup,
    Update,
    Last,
}

/// The renderer's systems.
#[derive(Debug, Clone, Copy, PartialEq, Eq, Structural)]
pub enum RenderSystem {
    /// Creates the world renderer once the primary window has a usable size.
    InitWorldRenderer,
    /// Draws the scene's entities from the camera.
    Render,
    /// Follows the window's size.
    Resize,
}

/// Systems added to one schedule, run one after the other.
#[derive(Debug, Clone, PartialEq, Eq)]
pub struct SystemRegistration {
    pub schedule: RenderSchedule,
    pub systems: Vec<RenderSystem>,
    /// Runs only while no world renderer exists yet.
    pub until_renderer_exists: bool,
}

/// The plugin that creates the world renderer and draws every frame.
#[derive(Debug, Clone, Copy, PartialEq, Eq, Structural)]
pub struct RenderPlugin;

impl RenderPlugin {
    /// The world renderer is created after startup, or retried on every update while
    /// the window has no usable size yet; the frame is drawn, then the window size is
    /// followed, at the end of every frame.
    pub fn build(&self) -> (r: Vec<SystemRegistration>)
        ensures
            r@.len() == 3,
            r@[0].schedule == RenderSchedule::PostStartup,
            r@[0].systems@ == seq![RenderSystem::InitWorldRenderer],
            !r@[0].until_renderer_exists,
            r@[1].schedule == RenderSchedule::Update,
            r@[1].systems@ == seq![RenderSystem::InitWorldRenderer],
            r@[1].until_renderer_exists,
            r@[2].schedule == RenderSchedule::Last,
            r@[2].systems@ == seq![RenderSystem::Render, RenderSystem::Resize],
            !r@[2].until_renderer_exists,
    {
        let mut r: Vec<SystemRegistration> = Vec::new();
        let mut s0: Vec<RenderSystem> = Vec::new();
        s0.push(RenderSystem::InitWorldRenderer);
        r.push(SystemRegistration { schedule: RenderSchedule::PostStartup, systems: s0, until_renderer_exists: false });
        let mut s1: Vec<RenderSystem> = Vec::new();
        s1.push(RenderSystem::InitWorldRenderer);
        r.push(SystemRegistration { schedule: RenderSchedule::Update, systems: s1, until_renderer_exists: true });
        let mut s2: Vec<RenderSystem> = Vec::new();
        s2.push(RenderSystem::Render);
        s2.push(RenderSystem::Resize);
        r.push(SystemRegistration { schedule: RenderSchedule::Last, systems: s2, until_renderer_exists: false });
        proof {
            assert(r@[0].systems@ =~= seq![RenderSystem::InitWorldRenderer]);
            assert(r@[1].systems@ =~= seq![RenderSystem::InitWorldRenderer]);
            assert(r@[2].systems@ =~= seq![RenderSystem::Render, RenderSystem::Resize]);
        }
        r
    }
}

} // verus!
