use vstd::prelude::*;

verus! {

/// How frames are handed to the display.
#[derive(Clone, Copy, Debug, PartialEq, Eq, Structural)]
pub enum PresentMode {
    /// Vsync-locked queue: no tearing, frames shown in order.
    Fifo,
    Immediate,
    Mailbox,
}

/// How the surface's alpha channel is composited.
#[derive(Clone, Copy, Debug, PartialEq, Eq, Structural)]
pub enum AlphaMode {
    Auto,
    Opaque,
}

/// Configuration of the presentable surface.
#[derive(Clone, Copy, Debug, PartialEq, Eq, Structural)]
pub struct SurfaceConfig {
    /// The surface images are used as render targets.
    pub render_attachment: bool,
    /// Texture format code, as reported by the target.
    pub format: u32,
    pub width: u32,
    pub height: u32,
    pub present_mode: PresentMode,
    pub alpha_mode: AlphaMode,
}

pub open spec fn surface_config_for(format: u32, width: u32, height: u32) -> SurfaceConfig {
    SurfaceConfig {
        render_attachment: true,
        format,
        width,
        height,
        present_mode: PresentMode::Fifo,
        alpha_mode: AlphaMode::Auto,
    }
}

/// Configures the surface for a target reporting `formats` (best first) at
/// `width` x `height` pixels: the first format, strict FIFO presentation,
/// automatic alpha. `None` when the target reports no format.
pub fn configure_surface(formats: &Vec<u32>, width: u32, height: u32) -> (r: Option<SurfaceConfig>)
    ensures
        r is None <==> formats@.len() == 0,
        r matches Some(c) ==> c == surface_config_for(formats@[0], width, height),
{
    if formats.len() == 0 {
        None
    } else {
        Some(
            SurfaceConfig {
                render_attachment: true,
                format: formats[0],
                width,
                height,
                present_mode: PresentMode::Fifo,
                alpha_mode: AlphaMode::Auto,
            },
        )
    }
}

/// Tracks acquired and presented frames. Frames are numbered from 0 in
/// acquisition order; at most one is in flight, and it is presented once.
#[derive(Clone, Copy, Debug, PartialEq, Eq, Structural)]
pub struct FramePacer {
    acquired: u64,
    presented: u64,
    in_flight: bool,
}

impl FramePacer {
    pub closed spec fn wf(self) -> bool {
        if self.in_flight {
            self.acquired >= 1 && self.presented == self.acquired - 1
        } else {
            self.presented == self.acquired
        }
    }

    /// Frames presented so far, in presentation order.
    pub closed spec fn presented_log(self) -> Seq<u64> {
        Seq::new(self.presented as nat, |i: int| i as u64)
    }

    /// Number of the frame acquired and not yet presented, if any.
    pub closed spec fn pending(self) -> Option<u64> {
        if self.in_flight {
            Some((self.acquired - 1) as u64)
        } else {
            None
        }
    }

    pub closed spec fn acquired_count(self) -> nat {
        self.acquired as nat
    }

    pub fn new() -> (r: FramePacer)
        ensures
            r.wf(),
            r.presented_log() == Seq::<u64>::empty(),
            r.pending() is None,
            r.acquired_count() == 0,
    {
        FramePacer { acquired: 0, presented: 0, in_flight: false }
    }

    pub fn pending_frame(&self) -> (r: Option<u64>)
        requires
            self.wf(),
        ensures
            r == self.pending(),
    {
        if self.in_flight {
            Some(self.acquired - 1)
        } else {
            None
        }
    }

    /// Starts the next frame. Refused while a frame is in flight, or when the
    /// frame numbers are used up.
    pub fn acquire(&mut self) -> (r: Option<u64>)
        requires
            old(self).wf(),
        ensures
            final(self).wf(),
            r is Some <==> (old(self).pending() is None && old(self).acquired_count() < u64::MAX),
            r matches Some(id) ==> {
                &&& id as nat == old(self).acquired_count()
                &&& final(self).pending() == Some(id)
                &&& final(self).acquired_count() == old(self).acquired_count() + 1
                &&& final(self).presented_log() == old(self).presented_log()
            },
            r is None ==> *final(self) == *old(self),
    {
        if self.in_flight || self.acquired == u64::MAX {
            None
        } else {
            let id = self.acquired;
            self.acquired = self.acquired + 1;
            self.in_flight = true;
            Some(id)
        }
    }

    /// Presents frame `id`. Succeeds only for the frame in flight.
    pub fn present(&mut self, id: u64) -> (r: bool)
        requires
            old(self).wf(),
        ensures
            final(self).wf(),
            r == (old(self).pending() == Some(id)),
            r ==> {
                &&& final(self).presented_log() == old(self).presented_log().push(id)
                &&& final(self).pending() is None
                &&& final(self).acquired_count() == old(self).acquired_count()
            },
            !r ==> *final(self) == *old(self),
    {
        if self.in_flight && id == self.acquired - 1 {
            self.presented = self.presented + 1;
            self.in_flight = false;
            proof {
                assert(self.presented_log() =~= old(self).presented_log().push(id));
            }
            true
        } else {
            false
        }
    }
}

/// What acquiring the next surface image came back with.
#[derive(Clone, Copy, Debug, PartialEq, Eq, Structural)]
pub enum AcquireOutcome {
    Ready,
    /// The surface no longer matches the target and must be reconfigured.
    Outdated,
    /// The surface was lost and must be reconfigured.
    Lost,
    Timeout,
    /// The device ran out of memory: there is no way to go on.
    OutOfMemory,
}

/// What the frame loop does next.
#[derive(Clone, Copy, Debug, PartialEq, Eq, Structural)]
pub enum FrameAction {
    /// Record and submit frame `id`, then present it.
    Draw(u64),
    /// Reconfigure the surface with this configuration and retry next frame.
    Reconfigure(SurfaceConfig),
    /// Do nothing this time round.
    Skip,
    /// Stop: the device cannot go on.
    Fatal,
}

/// The render context's state: the surface configuration, the size of the
/// presentation target, and the frames in flight.
pub struct GraphicsSystem {
    config: SurfaceConfig,
    pacer: FramePacer,
}

impl GraphicsSystem {
    pub closed spec fn wf(self) -> bool {
        self.pacer.wf()
    }

    pub closed spec fn surface(self) -> SurfaceConfig {
        self.config
    }

    pub closed spec fn frames(self) -> FramePacer {
        self.pacer
    }

    /// Sets up the context for a target that reports `formats` (best first)
    /// and measures `width` x `height` pixels. A target that reports no
    /// format cannot be rendered to at all: `configure_surface` tells such a
    /// target apart first.
    pub fn new(formats: &Vec<u32>, width: u32, height: u32) -> (r: GraphicsSystem)
        requires
            formats@.len() > 0,
        ensures
            r.wf(),
            r.surface() == surface_config_for(formats@[0], width, height),
            r.frames().presented_log() == Seq::<u64>::empty(),
            r.frames().pending() is None,
            r.frames().acquired_count() == 0,
    {
        let config = SurfaceConfig {
            render_attachment: true,
            format: formats[0],
            width,
            height,
            present_mode: PresentMode::Fifo,
            alpha_mode: AlphaMode::Auto,
        };
        GraphicsSystem { config, pacer: FramePacer::new() }
    }

    pub fn config(&self) -> (r: SurfaceConfig)
        ensures
            r == self.surface(),
    {
        self.config
    }

    /// Tracks a new target size; the returned configuration is the one the
    /// surface must be reconfigured with.
    pub fn resize(&mut self, width: u32, height: u32) -> (r: SurfaceConfig)
        requires
            old(self).wf(),
        ensures
            final(self).wf(),
            r == final(self).surface(),
            r == (SurfaceConfig { width, height, ..old(self).surface() }),
            final(self).frames() == old(self).frames(),
    {
        self.config.width = width;
        self.config.height = height;
        self.config
    }

    /// Decides what to do with the outcome of acquiring a surface image:
    /// draw the next frame when one was handed out, reconfigure on an
    /// outdated or lost surface, give up when the device is out of memory.
    pub fn begin_frame(&mut self, outcome: AcquireOutcome) -> (r: FrameAction)
        requires
            old(self).wf(),
        ensures
            final(self).wf(),
            final(self).surface() == old(self).surface(),
            final(self).frames().presented_log() == old(self).frames().presented_log(),
            match outcome {
                AcquireOutcome::Ready => {
                    if old(self).frames().pending() is None && old(self).frames().acquired_count()
                        < u64::MAX {
                        &&& r == FrameAction::Draw(old(self).frames().acquired_count() as u64)
                        &&& final(self).frames().pending() == Some(
                            old(self).frames().acquired_count() as u64,
                        )
                        &&& final(self).frames().acquired_count() == old(
                            self,
                        ).frames().acquired_count() + 1
                    } else {
                        r == FrameAction::Skip && final(self).frames() == old(self).frames()
                    }
                },
                AcquireOutcome::Outdated | AcquireOutcome::Lost => {
                    r == FrameAction::Reconfigure(old(self).surface()) && final(self).frames()
                        == old(self).frames()
                },
                AcquireOutcome::Timeout => {
                    r == FrameAction::Skip && final(self).frames() == old(self).frames()
                },
                AcquireOutcome::OutOfMemory => {
                    r == FrameAction::Fatal && final(self).frames() == old(self).frames()
                },
            },
    {
        match outcome {
            AcquireOutcome::Ready => match self.pacer.acquire() {
                Some(id) => FrameAction::Draw(id),
                None => FrameAction::Skip,
            },
            AcquireOutcome::Outdated | AcquireOutcome::Lost => FrameAction::Reconfigure(self.config),
            AcquireOutcome::Timeout => FrameAction::Skip,
            AcquireOutcome::OutOfMemory => FrameAction::Fatal,
        }
    }

    /// Records that frame `id` was submitted and presented. Refused for any
    /// frame but the one in flight.
    pub fn end_frame(&mut self, id: u64) -> (r: bool)
        requires
            old(self).wf(),
        ensures
            final(self).wf(),
            final(self).surface() == old(self).surface(),
            r == (old(self).frames().pending() == Some(id)),
            r ==> {
                &&& final(self).frames().presented_log() == old(self).frames().presented_log().push(id)
                &&& final(self).frames().pending() is None
                &&& final(self).frames().acquired_count() == old(self).frames().acquired_count()
            },
            !r ==> final(self).frames() == old(self).frames(),
    {
        self.pacer.present(id)
    }
}

/// Every frame is presented at most once, and frames are presented in the
/// order in which they were acquired.
pub proof fn lemma_frames_presented_in_order(p: FramePacer)
    requires
        p.wf(),
    ensures
        forall|i: int, j: int|
            0 <= i < j < p.presented_log().len() ==> p.presented_log()[i] < p.presented_log()[j],
        forall|i: int|
            0 <= i < p.presented_log().len() ==> (p.presented_log()[i] as nat) < p.acquired_count(),
{
}

/// In a well-formed render context, every frame is presented at most once,
/// and frames are presented in the order in which they were acquired.
pub proof fn lemma_context_frames_in_order(g: GraphicsSystem)
    requires
        g.wf(),
    ensures
        g.frames().wf(),
        forall|i: int, j: int|
            0 <= i < j < g.frames().presented_log().len() ==> g.frames().presented_log()[i]
                < g.frames().presented_log()[j],
        forall|i: int|
            0 <= i < g.frames().presented_log().len() ==> (g.frames().presented_log()[i] as nat)
                < g.frames().acquired_count(),
{
    lemma_frames_presented_in_order(g.frames());
}

} // verus!
