use vstd::prelude::*;

use crate::capabilities::{find_alpha_mode, find_surface_format, is_first_preferred, AlphaMode};
use crate::error::RendererError;
use crate::immediate::Immediate;

verus! {

/// The number of frames the presentation engine may queue ahead.
pub const MAX_FRAME_LATENCY: u32 = 2;

/// The parts of the surface configuration that the renderer decides; the
/// host applies them with render-attachment usage, adaptive vsync and the
/// sRGB view of `format` as the one view format.
#[derive(Clone, Copy, Debug)]
pub struct SurfaceConfig<F> {
    pub format: F,
    pub width: u32,
    pub height: u32,
    pub alpha_mode: AlphaMode,
    pub desired_maximum_frame_latency: u32,
}

/// Why the next surface texture could not be acquired.
#[derive(Clone, Copy, Debug, PartialEq, Eq, Structural)]
pub enum SurfaceFault {
    Timeout,
    Occluded,
    Outdated,
    Lost,
    Validation,
}

/// The result of asking the surface for its next texture.
#[derive(Clone, Copy, Debug, PartialEq, Eq, Structural)]
pub enum Acquisition {
    Ready,
    Failed(SurfaceFault),
}

/// What the host does with the current frame.
#[derive(Clone, Copy, Debug, PartialEq, Eq, Structural)]
pub enum FrameAction {
    /// Encode the pass, submit one command buffer and present the frame.
    Draw,
    /// The swap chain was lost: configure the surface with the renderer's
    /// configuration, and draw nothing this frame.
    Reconfigure,
    /// The swap chain was lost while the window has no area: do nothing.
    Skip,
    /// Acquisition failed for another reason: report it and draw nothing.
    Discard(SurfaceFault),
}

/// The swap chain must be rebuilt before the next acquisition.
pub open spec fn is_swap_chain_loss(acquisition: Acquisition) -> bool {
    acquisition == Acquisition::Failed(SurfaceFault::Outdated)
        || acquisition == Acquisition::Failed(SurfaceFault::Lost)
}

/// What a frame does, given the acquisition outcome and the window's inner
/// size at that moment.
pub open spec fn frame_action(acquisition: Acquisition, width: u32, height: u32) -> FrameAction {
    match acquisition {
        Acquisition::Ready => FrameAction::Draw,
        Acquisition::Failed(fault) => {
            if is_swap_chain_loss(acquisition) {
                if width > 0 && height > 0 {
                    FrameAction::Reconfigure
                } else {
                    FrameAction::Skip
                }
            } else {
                FrameAction::Discard(fault)
            }
        },
    }
}

/// Command buffers submitted by a frame that takes `action`.
pub open spec fn submits(action: FrameAction) -> nat {
    if action is Draw { 1 } else { 0 }
}

/// Surface reconfigurations made by a frame that takes `action`.
pub open spec fn reconfigures(action: FrameAction) -> nat {
    if action is Reconfigure { 1 } else { 0 }
}

/// The renderer's state: the surface configuration it keeps coherent with
/// the window, and the immediate block it pushes on every draw.
pub struct Renderer<F> {
    config: SurfaceConfig<F>,
    immediate: Immediate,
}

impl<F> Renderer<F> {
    pub closed spec fn surface_config(self) -> SurfaceConfig<F> {
        self.config
    }

    pub closed spec fn immediate_block(self) -> Immediate {
        self.immediate
    }

    /// The configured extent is nonzero and the immediate block describes it.
    pub open spec fn wf(self) -> bool {
        &&& self.surface_config().width > 0
        &&& self.surface_config().height > 0
        &&& self.surface_config().desired_maximum_frame_latency == MAX_FRAME_LATENCY
        &&& self.immediate_block() == Immediate::of(
            self.surface_config().width,
            self.surface_config().height,
        )
    }

    /// The state after a resize to `width` x `height`: a window without
    /// area leaves it as it is.
    pub closed spec fn resized(self, width: u32, height: u32) -> Self {
        if width > 0 && height > 0 {
            Renderer {
                config: SurfaceConfig { width, height, ..self.config },
                immediate: Immediate::of(width, height),
            }
        } else {
            self
        }
    }

    /// The state after a frame.
    pub open spec fn after_frame(self, acquisition: Acquisition, width: u32, height: u32) -> Self {
        if is_swap_chain_loss(acquisition) {
            self.resized(width, height)
        } else {
            self
        }
    }
}

impl<F: Copy> Renderer<F> {
    /// Chooses the surface configuration for a `width` x `height` window
    /// from the formats and alpha modes the surface reports.
    pub fn new(formats: &Vec<F>, alpha_modes: &Vec<AlphaMode>, width: u32, height: u32) -> (r:
        Result<Self, RendererError>)
        requires
            width > 0,
            height > 0,
        ensures
            r is Err <==> formats@.len() == 0 || alpha_modes@.len() == 0,
            r is Err ==> r == Err::<Self, RendererError>(RendererError::CapabilityMissing),
            r matches Ok(renderer) ==> {
                &&& renderer.wf()
                &&& renderer.surface_config().format == formats@[0]
                &&& exists|i: int|
                    is_first_preferred(alpha_modes@, i) && alpha_modes@[i]
                        == renderer.surface_config().alpha_mode
                &&& renderer.surface_config().width == width
                &&& renderer.surface_config().height == height
                &&& renderer.immediate_block() == Immediate::of(width, height)
            },
    {
        let format = match find_surface_format(formats) {
            Ok(f) => f,
            Err(e) => return Err(e),
        };
        let alpha_mode = match find_alpha_mode(alpha_modes) {
            Ok(m) => m,
            Err(e) => return Err(e),
        };
        let config = SurfaceConfig {
            format,
            width,
            height,
            alpha_mode,
            desired_maximum_frame_latency: MAX_FRAME_LATENCY,
        };
        Ok(Renderer { config, immediate: Immediate::new(width, height) })
    }

    pub fn config(&self) -> (r: &SurfaceConfig<F>)
        ensures
            *r == self.surface_config(),
    {
        &self.config
    }

    pub fn immediate(&self) -> (r: Immediate)
        ensures
            r == self.immediate_block(),
    {
        self.immediate
    }

    /// Follows the window to `width` x `height`. Returns whether the surface
    /// must be configured again with `config()`; a window without area
    /// changes nothing.
    pub fn resize(&mut self, width: u32, height: u32) -> (reconfigure: bool)
        requires
            old(self).wf(),
        ensures
            final(self).wf(),
            *final(self) == old(self).resized(width, height),
            reconfigure == (width > 0 && height > 0),
            reconfigure ==> final(self).surface_config() == (SurfaceConfig {
                width,
                height,
                ..old(self).surface_config()
            }),
            reconfigure ==> final(self).immediate_block() == Immediate::of(width, height),
            !reconfigure ==> *final(self) == *old(self),
    {
        if 0 < width && 0 < height {
            self.config.width = width;
            self.config.height = height;
            self.immediate.update_window_size(width, height);
            true
        } else {
            false
        }
    }

    /// Decides what the current frame does, given how acquiring the next
    /// surface texture went and the window's inner size now. A lost swap
    /// chain resizes to that size.
    pub fn render(&mut self, acquisition: Acquisition, width: u32, height: u32) -> (action:
        FrameAction)
        requires
            old(self).wf(),
        ensures
            final(self).wf(),
            action == frame_action(acquisition, width, height),
            *final(self) == old(self).after_frame(acquisition, width, height),
    {
        match acquisition {
            Acquisition::Ready => FrameAction::Draw,
            Acquisition::Failed(SurfaceFault::Outdated) | Acquisition::Failed(SurfaceFault::Lost) => {
                if self.resize(width, height) {
                    FrameAction::Reconfigure
                } else {
                    FrameAction::Skip
                }
            },
            Acquisition::Failed(fault) => FrameAction::Discard(fault),
        }
    }
}

/// Resizing twice to the same extent leaves the renderer in the state that
/// one resize gives.
pub proof fn lemma_resize_idempotent<F>(r: Renderer<F>, width: u32, height: u32)
    requires
        r.wf(),
    ensures
        r.resized(width, height).resized(width, height) == r.resized(width, height),
{
}

/// A frame whose acquisition reports an outdated swap chain, while the
/// window has area, reconfigures once and submits nothing; it leaves the
/// renderer well formed at the window's size, and the next frame that
/// acquires a texture draws and submits one command buffer.
pub proof fn lemma_outdated_frame_recovers<F>(r: Renderer<F>, width: u32, height: u32)
    requires
        r.wf(),
        width > 0,
        height > 0,
    ensures
        ({
            let outdated = Acquisition::Failed(SurfaceFault::Outdated);
            let first = frame_action(outdated, width, height);
            let next = r.after_frame(outdated, width, height);
            &&& reconfigures(first) == 1
            &&& submits(first) == 0
            &&& next.wf()
            &&& next.surface_config().width == width
            &&& next.surface_config().height == height
            &&& frame_action(Acquisition::Ready, width, height) == FrameAction::Draw
            &&& submits(frame_action(Acquisition::Ready, width, height)) == 1
            &&& reconfigures(frame_action(Acquisition::Ready, width, height)) == 0
            &&& next.after_frame(Acquisition::Ready, width, height) == next
        }),
{
}

} // verus!
