//! The lifecycle of the display surface as a state machine.
//!
//! The host owns the GPU objects; this module owns the decisions. Each event
//! (a window event or the outcome of a frame) moves the lifecycle to its next
//! state and yields the one action the host must perform. The surface
//! configuration and the depth attachment are recorded here, so that their
//! sizes can be shown to agree after every step.

use vstd::prelude::*;

verus! {

/// Pixel dimensions of a surface or of an attachment.
#[derive(Clone, Copy, Debug, PartialEq, Eq, Structural)]
pub struct SurfaceSize {
    pub width: u32,
    pub height: u32,
}

/// A dimension raised to at least one pixel.
pub open spec fn at_least_one(d: u32) -> u32 {
    if d == 0 {
        1
    } else {
        d
    }
}

impl SurfaceSize {
    /// Both dimensions are at least one pixel, so the aspect ratio
    /// `width / height` is defined and positive.
    pub open spec fn is_drawable(self) -> bool {
        self.width >= 1 && self.height >= 1
    }

    pub open spec fn clamp_spec(self) -> SurfaceSize {
        SurfaceSize { width: at_least_one(self.width), height: at_least_one(self.height) }
    }

    pub fn new(width: u32, height: u32) -> (size: SurfaceSize)
        ensures
            size.width == width,
            size.height == height,
    {
        SurfaceSize { width, height }
    }

    /// The size with each zero dimension replaced by one.
    pub fn clamped(self) -> (size: SurfaceSize)
        ensures
            size == self.clamp_spec(),
            size.is_drawable(),
    {
        let width: u32 = if self.width == 0 {
            1
        } else {
            self.width
        };
        let height: u32 = if self.height == 0 {
            1
        } else {
            self.height
        };
        SurfaceSize { width, height }
    }
}

/// The attachments rendered into besides the surface texture.
#[derive(Clone, Copy, Debug, PartialEq, Eq, Structural)]
pub struct RenderTextures {
    pub depth_size: SurfaceSize,
}

#[derive(Clone, Copy, Debug, PartialEq, Eq, Structural)]
pub enum FrameState {
    /// The surface was (re)configured and no frame has been drawn on it yet.
    Configured,
    /// The last frame was presented.
    Ready,
    /// A frame has been started and its outcome is not known yet.
    Rendering,
    /// The surface was lost; it must be reconfigured before the next frame.
    Lost,
    /// The loop was asked to stop, or the device ran out of memory.
    Closed,
}

/// Why the next surface texture could not be acquired.
#[derive(Clone, Copy, Debug, PartialEq, Eq, Structural)]
pub enum SurfaceError {
    Timeout,
    Outdated,
    Lost,
    OutOfMemory,
}

/// What the host does next.
#[derive(Clone, Copy, Debug, PartialEq, Eq, Structural)]
pub enum FrameAction {
    /// Nothing until the next event.
    Wait,
    /// Acquire the next surface texture, record one pass that clears color to
    /// black and depth to one, draw every mesh, submit and present; then report
    /// the outcome.
    Render,
    /// Recreate the depth attachment and reconfigure the surface at this size,
    /// set the camera's aspect ratio to `width / height`, upload its projection
    /// and request a redraw.
    Reconfigure(SurfaceSize),
    /// The frame is dropped; the next one is attempted as usual.
    DropFrame,
    /// Leave the render loop.
    Exit,
}

/// The window events the lifecycle reacts to.
#[derive(Clone, Copy, Debug, PartialEq, Eq, Structural)]
pub enum WindowEvent {
    Resized(SurfaceSize),
    RedrawRequested,
    CloseRequested,
}

/// The abstract state of a [`FrameLifecycle`].
pub struct FrameView {
    pub state: FrameState,
    pub size: SurfaceSize,
    pub config_size: SurfaceSize,
    pub render_textures: RenderTextures,
}

impl FrameView {
    /// The size is drawable, and the surface configuration and the depth
    /// attachment both have that size.
    pub open spec fn wf(self) -> bool {
        &&& self.size.is_drawable()
        &&& self.config_size == self.size
        &&& self.render_textures.depth_size == self.config_size
    }

    pub open spec fn with_state(self, state: FrameState) -> FrameView {
        FrameView { state, ..self }
    }

    /// Reconfiguration at `requested`, clamped to at least one pixel each way.
    /// The sizes are recorded in every state; a closed lifecycle stays closed.
    pub open spec fn after_resize(self, requested: SurfaceSize) -> FrameView {
        let s = requested.clamp_spec();
        FrameView {
            state: if self.state == FrameState::Closed {
                FrameState::Closed
            } else {
                FrameState::Configured
            },
            size: s,
            config_size: s,
            render_textures: RenderTextures { depth_size: s },
        }
    }

    pub open spec fn resize_action(self, requested: SurfaceSize) -> FrameAction {
        if self.state == FrameState::Closed {
            FrameAction::Wait
        } else {
            FrameAction::Reconfigure(requested.clamp_spec())
        }
    }

    /// A redraw starts a frame on a configured or ready surface, asks for
    /// reconfiguration at the current size on a lost one, and is ignored while
    /// a frame is in flight or after closing.
    pub open spec fn after_redraw(self) -> (FrameView, FrameAction) {
        match self.state {
            FrameState::Configured | FrameState::Ready => (
                self.with_state(FrameState::Rendering),
                FrameAction::Render,
            ),
            FrameState::Lost => (self, FrameAction::Reconfigure(self.size)),
            FrameState::Rendering | FrameState::Closed => (self, FrameAction::Wait),
        }
    }

    /// A presented frame leaves the surface ready. A lost surface must be
    /// reconfigured at the current size; running out of memory ends the loop;
    /// any other error drops the frame.
    pub open spec fn after_frame(self, outcome: Result<(), SurfaceError>) -> (FrameView, FrameAction) {
        if self.state == FrameState::Closed {
            (self, FrameAction::Exit)
        } else {
            match outcome {
                Ok(()) => (self.with_state(FrameState::Ready), FrameAction::Wait),
                Err(SurfaceError::Lost) => (
                    self.with_state(FrameState::Lost),
                    FrameAction::Reconfigure(self.size),
                ),
                Err(SurfaceError::OutOfMemory) => (
                    self.with_state(FrameState::Closed),
                    FrameAction::Exit,
                ),
                Err(_) => (self.with_state(FrameState::Ready), FrameAction::DropFrame),
            }
        }
    }

    pub open spec fn after_event(self, event: WindowEvent) -> (FrameView, FrameAction) {
        match event {
            WindowEvent::Resized(s) => (self.after_resize(s), self.resize_action(s)),
            WindowEvent::RedrawRequested => self.after_redraw(),
            WindowEvent::CloseRequested => (
                self.with_state(FrameState::Closed),
                FrameAction::Exit,
            ),
        }
    }
}

/// The recorded state of the display surface: where it is in its lifecycle,
/// its size, the size it was configured with and its depth attachment.
pub struct FrameLifecycle {
    state: FrameState,
    size: SurfaceSize,
    config_size: SurfaceSize,
    render_textures: RenderTextures,
}

impl View for FrameLifecycle {
    type V = FrameView;

    closed spec fn view(&self) -> FrameView {
        FrameView {
            state: self.state,
            size: self.size,
            config_size: self.config_size,
            render_textures: self.render_textures,
        }
    }
}

impl FrameLifecycle {
    #[verifier::type_invariant]
    closed spec fn inv(self) -> bool {
        self@.wf()
    }

    /// A lifecycle whose surface was just configured at `size`, clamped to at
    /// least one pixel each way, with a depth attachment of the same size.
    pub fn new(size: SurfaceSize) -> (lc: FrameLifecycle)
        ensures
            lc@.state == FrameState::Configured,
            lc@.size == size.clamp_spec(),
            lc@.wf(),
    {
        let s = size.clamped();
        FrameLifecycle {
            state: FrameState::Configured,
            size: s,
            config_size: s,
            render_textures: RenderTextures { depth_size: s },
        }
    }

    pub fn state(&self) -> (state: FrameState)
        ensures
            state == self@.state,
    {
        self.state
    }

    /// The current size; never zero in either dimension.
    pub fn size(&self) -> (size: SurfaceSize)
        ensures
            size == self@.size,
            size.is_drawable(),
    {
        proof {
            use_type_invariant(self);
        }
        self.size
    }

    /// The size the surface is configured with; always the current size.
    pub fn config_size(&self) -> (size: SurfaceSize)
        ensures
            size == self@.config_size,
            size == self@.size,
    {
        proof {
            use_type_invariant(self);
        }
        self.config_size
    }

    /// The attachments; the depth attachment always has the configured size.
    pub fn render_textures(&self) -> (textures: RenderTextures)
        ensures
            textures == self@.render_textures,
            textures.depth_size == self@.config_size,
    {
        proof {
            use_type_invariant(self);
        }
        self.render_textures
    }

    /// Records a new surface size. Each zero dimension becomes one; the
    /// surface configuration and the depth attachment take the same size.
    /// Returns what the host must rebuild; nothing once closed.
    pub fn resize(&mut self, requested: SurfaceSize) -> (action: FrameAction)
        ensures
            final(self)@ == old(self)@.after_resize(requested),
            action == old(self)@.resize_action(requested),
            final(self)@.wf(),
    {
        let s = requested.clamped();
        let closed = match self.state {
            FrameState::Closed => true,
            _ => false,
        };
        *self = FrameLifecycle {
            state: if closed {
                FrameState::Closed
            } else {
                FrameState::Configured
            },
            size: s,
            config_size: s,
            render_textures: RenderTextures { depth_size: s },
        };
        if closed {
            FrameAction::Wait
        } else {
            FrameAction::Reconfigure(s)
        }
    }

    /// Reacts to a redraw request: starts a frame when the surface is
    /// configured or ready.
    pub fn request_redraw(&mut self) -> (action: FrameAction)
        ensures
            (final(self)@, action) == old(self)@.after_redraw(),
            final(self)@.wf(),
    {
        proof {
            use_type_invariant(&*self);
        }
        match self.state {
            FrameState::Configured | FrameState::Ready => {
                self.set_state(FrameState::Rendering);
                FrameAction::Render
            },
            FrameState::Lost => FrameAction::Reconfigure(self.size),
            FrameState::Rendering | FrameState::Closed => FrameAction::Wait,
        }
    }

    /// Records how the frame that was started ended, and says how to go on.
    pub fn finish_frame(&mut self, outcome: Result<(), SurfaceError>) -> (action: FrameAction)
        ensures
            (final(self)@, action) == old(self)@.after_frame(outcome),
            final(self)@.wf(),
    {
        proof {
            use_type_invariant(&*self);
        }
        if let FrameState::Closed = self.state {
            return FrameAction::Exit;
        }
        match outcome {
            Ok(()) => {
                self.set_state(FrameState::Ready);
                FrameAction::Wait
            },
            Err(SurfaceError::Lost) => {
                self.set_state(FrameState::Lost);
                FrameAction::Reconfigure(self.size)
            },
            Err(SurfaceError::OutOfMemory) => {
                self.set_state(FrameState::Closed);
                FrameAction::Exit
            },
            Err(_) => {
                self.set_state(FrameState::Ready);
                FrameAction::DropFrame
            },
        }
    }

    /// Marks the lifecycle closed: nothing is drawn or reconfigured after this.
    pub fn close(&mut self)
        ensures
            final(self)@ == old(self)@.with_state(FrameState::Closed),
            final(self)@.wf(),
    {
        proof {
            use_type_invariant(&*self);
        }
        self.set_state(FrameState::Closed);
    }

    /// Dispatches one window event.
    pub fn handle_event(&mut self, event: WindowEvent) -> (action: FrameAction)
        ensures
            (final(self)@, action) == old(self)@.after_event(event),
            final(self)@.wf(),
    {
        match event {
            WindowEvent::Resized(s) => self.resize(s),
            WindowEvent::RedrawRequested => self.request_redraw(),
            WindowEvent::CloseRequested => {
                self.close();
                FrameAction::Exit
            },
        }
    }

    fn set_state(&mut self, state: FrameState)
        ensures
            final(self)@ == old(self)@.with_state(state),
    {
        proof {
            use_type_invariant(&*self);
        }
        *self = FrameLifecycle {
            state,
            size: self.size,
            config_size: self.config_size,
            render_textures: self.render_textures,
        };
    }
}

/// Resizing to zero by zero never leaves a zero dimension: the surface becomes
/// one pixel by one, so its aspect ratio is one.
pub proof fn lemma_resize_to_zero_is_one_pixel(v: FrameView)
    ensures
        v.after_resize(SurfaceSize { width: 0, height: 0 }).size == (SurfaceSize {
            width: 1,
            height: 1,
        }),
        v.after_resize(SurfaceSize { width: 0, height: 0 }).wf(),
{
}

/// Whatever size is requested, and in whatever state, a resize leaves a
/// drawable size, with the surface configuration and the depth attachment of
/// exactly that size.
pub proof fn lemma_resize_keeps_attachments_matched(v: FrameView, requested: SurfaceSize)
    ensures
        v.after_resize(requested).wf(),
        v.after_resize(requested).size == requested.clamp_spec(),
{
}

/// In a sequence of resizes the last one decides the size: earlier requests,
/// zero dimensions among them, leave no trace in it.
pub proof fn lemma_last_resize_wins(v: FrameView, first: SurfaceSize, second: SurfaceSize)
    ensures
        v.after_resize(first).after_resize(second).size == second.clamp_spec(),
        v.after_resize(first).after_resize(second).wf(),
        second.is_drawable() ==> v.after_resize(first).after_resize(second).size == second,
{
}

/// No step of the lifecycle, whatever the event or the outcome of a frame,
/// leaves the surface configuration or the depth attachment at another size
/// than the current one.
pub proof fn lemma_steps_keep_attachments_matched(
    v: FrameView,
    event: WindowEvent,
    outcome: Result<(), SurfaceError>,
)
    requires
        v.wf(),
    ensures
        v.after_event(event).0.wf(),
        v.after_redraw().0.wf(),
        v.after_frame(outcome).0.wf(),
{
}

} // verus!
