//! The description of a window that is still to be built.
//!
//! A [`GraphWindowBuilder`] records what is asked of the window, request by
//! request, and which rendering backend was chosen on the way. Whoever
//! creates the window replays the recorded requests, in order, on the
//! windowing toolkit.
use vstd::prelude::*;

verus! {

/// Possible rendering backends for a window.
#[derive(Copy, Clone, Debug, PartialEq, Eq, Structural)]
pub enum RenderBackend {
    /// No backend was selected yet.
    Unselected,
    OpenGL,
    Vulkan,
    Metal,
    Cpu,
}

/// One request made of the window under construction.
#[derive(Copy, Clone, Debug, PartialEq, Eq, Structural)]
pub enum WindowOp {
    /// Replace the underlying window flags.
    SetWindowFlags(u32),
    /// Place the window at the given coordinates.
    Position(i32, i32),
    /// Center the window.
    PositionCentered,
    /// Make the window fullscreen.
    Fullscreen,
    /// Use a high pixel density back buffer if possible.
    HighPixelDensity,
    /// Make the window usable with an OpenGL context.
    OpenGl,
    /// Make the window usable with a Vulkan instance.
    Vulkan,
    /// Hide the window.
    Hidden,
    /// Remove the window decoration.
    Borderless,
    /// Make the window resizable.
    Resizable,
    /// Minimize the window.
    Minimized,
    /// Maximize the window.
    Maximized,
    /// Give the window grabbed input focus.
    InputGrabbed,
    /// Create a Metal view together with the window.
    MetalView,
}

/// What a window builder stands for: title and size, the requests made so
/// far in the order in which they were made, and the backend chosen.
pub struct WindowRequest {
    pub title: Seq<char>,
    pub width: u32,
    pub height: u32,
    pub ops: Seq<WindowOp>,
    pub backend: RenderBackend,
}

impl WindowRequest {
    /// The same request with `op` made after all the others.
    pub open spec fn followed_by(self, op: WindowOp) -> WindowRequest {
        WindowRequest { ops: self.ops.push(op), ..self }
    }

    /// The same request with `backend` as the chosen backend.
    pub open spec fn rendered_by(self, backend: RenderBackend) -> WindowRequest {
        WindowRequest { backend, ..self }
    }
}

/// A finished description of a window: what [`GraphWindowBuilder::build`]
/// hands to the code that creates it.
#[derive(Clone, Debug)]
pub struct WindowPlan {
    pub title: String,
    pub width: u32,
    pub height: u32,
    pub ops: Vec<WindowOp>,
    pub backend: RenderBackend,
}

impl View for WindowPlan {
    type V = WindowRequest;

    open spec fn view(&self) -> WindowRequest {
        WindowRequest {
            title: self.title@,
            width: self.width,
            height: self.height,
            ops: self.ops@,
            backend: self.backend,
        }
    }
}

/// Builder for a window, allowing configuration of window flags, position
/// and render backend.
pub struct GraphWindowBuilder {
    title: String,
    width: u32,
    height: u32,
    ops: Vec<WindowOp>,
    backend: RenderBackend,
}

impl View for GraphWindowBuilder {
    type V = WindowRequest;

    closed spec fn view(&self) -> WindowRequest {
        WindowRequest {
            title: self.title@,
            width: self.width,
            height: self.height,
            ops: self.ops@,
            backend: self.backend,
        }
    }
}

impl GraphWindowBuilder {
    /// Begins the description of a window with the given title and size.
    /// Nothing is requested yet and no backend is chosen.
    pub fn new(title: &str, width: u32, height: u32) -> (builder: GraphWindowBuilder)
        ensures
            builder@ == (WindowRequest {
                title: title@,
                width,
                height,
                ops: Seq::<WindowOp>::empty(),
                backend: RenderBackend::Unselected,
            }),
    {
        GraphWindowBuilder {
            title: title.to_owned(),
            width,
            height,
            ops: Vec::new(),
            backend: RenderBackend::Unselected,
        }
    }

    /// The backend chosen so far.
    pub fn backend(&self) -> (backend: RenderBackend)
        ensures
            backend == self@.backend,
    {
        self.backend
    }

    /// Finishes the description and hands it out.
    ///
    /// A rendering backend must have been selected.
    pub fn build(self) -> (plan: WindowPlan)
        requires
            self@.backend != RenderBackend::Unselected,
        ensures
            plan@ == self@,
    {
        WindowPlan {
            title: self.title,
            width: self.width,
            height: self.height,
            ops: self.ops,
            backend: self.backend,
        }
    }

    /// Sets the underlying window flags.
    /// This will effectively undo any previous build operations, excluding
    /// window size and position.
    pub fn set_window_flags(self, flags: u32) -> (builder: GraphWindowBuilder)
        ensures
            builder@ == self@.followed_by(WindowOp::SetWindowFlags(flags)),
    {
        let mut builder = self;
        builder.ops.push(WindowOp::SetWindowFlags(flags));
        builder
    }

    /// Sets the window position.
    pub fn position(self, x: i32, y: i32) -> (builder: GraphWindowBuilder)
        ensures
            builder@ == self@.followed_by(WindowOp::Position(x, y)),
    {
        let mut builder = self;
        builder.ops.push(WindowOp::Position(x, y));
        builder
    }

    /// Centers the window.
    pub fn position_centered(self) -> (builder: GraphWindowBuilder)
        ensures
            builder@ == self@.followed_by(WindowOp::PositionCentered),
    {
        let mut builder = self;
        builder.ops.push(WindowOp::PositionCentered);
        builder
    }

    /// Sets the window to fullscreen.
    pub fn fullscreen(self) -> (builder: GraphWindowBuilder)
        ensures
            builder@ == self@.followed_by(WindowOp::Fullscreen),
    {
        let mut builder = self;
        builder.ops.push(WindowOp::Fullscreen);
        builder
    }

    /// Window uses high pixel density back buffer if possible.
    pub fn high_pixel_density(self) -> (builder: GraphWindowBuilder)
        ensures
            builder@ == self@.followed_by(WindowOp::HighPixelDensity),
    {
        let mut builder = self;
        builder.ops.push(WindowOp::HighPixelDensity);
        builder
    }

    /// Sets the window to be usable with an OpenGL context, and selects
    /// OpenGL as the rendering backend.
    pub fn opengl(self) -> (builder: GraphWindowBuilder)
        ensures
            builder@ == self@.followed_by(WindowOp::OpenGl).rendered_by(RenderBackend::OpenGL),
    {
        let mut builder = self;
        builder.ops.push(WindowOp::OpenGl);
        builder.backend = RenderBackend::OpenGL;
        builder
    }

    /// Sets the window to be usable with a Vulkan instance, and selects
    /// Vulkan as the rendering backend.
    pub fn vulkan(self) -> (builder: GraphWindowBuilder)
        ensures
            builder@ == self@.followed_by(WindowOp::Vulkan).rendered_by(RenderBackend::Vulkan),
    {
        let mut builder = self;
        builder.ops.push(WindowOp::Vulkan);
        builder.backend = RenderBackend::Vulkan;
        builder
    }

    /// Hides the window.
    pub fn hidden(self) -> (builder: GraphWindowBuilder)
        ensures
            builder@ == self@.followed_by(WindowOp::Hidden),
    {
        let mut builder = self;
        builder.ops.push(WindowOp::Hidden);
        builder
    }

    /// Removes the window decoration.
    pub fn borderless(self) -> (builder: GraphWindowBuilder)
        ensures
            builder@ == self@.followed_by(WindowOp::Borderless),
    {
        let mut builder = self;
        builder.ops.push(WindowOp::Borderless);
        builder
    }

    /// Sets the window to be resizable.
    pub fn resizable(self) -> (builder: GraphWindowBuilder)
        ensures
            builder@ == self@.followed_by(WindowOp::Resizable),
    {
        let mut builder = self;
        builder.ops.push(WindowOp::Resizable);
        builder
    }

    /// Minimizes the window.
    pub fn minimized(self) -> (builder: GraphWindowBuilder)
        ensures
            builder@ == self@.followed_by(WindowOp::Minimized),
    {
        let mut builder = self;
        builder.ops.push(WindowOp::Minimized);
        builder
    }

    /// Maximizes the window.
    pub fn maximized(self) -> (builder: GraphWindowBuilder)
        ensures
            builder@ == self@.followed_by(WindowOp::Maximized),
    {
        let mut builder = self;
        builder.ops.push(WindowOp::Maximized);
        builder
    }

    /// Sets the window to have grabbed input focus.
    pub fn input_grabbed(self) -> (builder: GraphWindowBuilder)
        ensures
            builder@ == self@.followed_by(WindowOp::InputGrabbed),
    {
        let mut builder = self;
        builder.ops.push(WindowOp::InputGrabbed);
        builder
    }

    /// Creates a Metal view when constructing the window.
    pub fn metal_view(self) -> (builder: GraphWindowBuilder)
        ensures
            builder@ == self@.followed_by(WindowOp::MetalView),
    {
        let mut builder = self;
        builder.ops.push(WindowOp::MetalView);
        builder
    }
}

} // verus!
