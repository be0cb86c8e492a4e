use vstd::prelude::*;

verus! {

/// When a canvas's image is drawn again.
#[derive(Clone, Copy, Debug, PartialEq, Eq, Structural)]
pub enum CanvasMode {
    /// Every frame.
    Continuous,
    /// Once when created, then only after `redraw`.
    Persistent,
    /// Only after `redraw`.
    OnDemand,
}

/// An off-screen render target of a fixed size and its redraw policy. The image, depth buffer
/// and camera belong to the host; this holds the decision of when they are used.
#[derive(Clone, Copy, Debug, PartialEq, Eq, Structural)]
pub struct Canvas {
    pub width: u32,
    pub height: u32,
    pub mode: CanvasMode,
    /// A redraw has been asked for and not yet done.
    pub dirty: bool,
}

/// Whether `c` is drawn in the coming frame.
pub open spec fn renders(c: Canvas) -> bool {
    c.mode == CanvasMode::Continuous || c.dirty
}

/// The canvas after one frame.
pub open spec fn after_frame(c: Canvas) -> Canvas {
    Canvas { dirty: false, ..c }
}

/// How many of the next `n` frames draw `c`, when nothing asks for a redraw meanwhile.
pub open spec fn renders_in(c: Canvas, n: nat) -> nat
    decreases n,
{
    if n == 0 {
        0
    } else {
        (if renders(c) { 1nat } else { 0nat }) + renders_in(after_frame(c), (n - 1) as nat)
    }
}

impl Canvas {
    /// A canvas of the given size. A persistent canvas starts dirty, so that it is drawn
    /// once; an on-demand one waits for `redraw`.
    pub fn new(width: u32, height: u32, mode: CanvasMode) -> (r: Canvas)
        ensures
            r.width == width && r.height == height && r.mode == mode,
            r.dirty == (mode == CanvasMode::Persistent),
    {
        let dirty = match mode {
            CanvasMode::Persistent => true,
            _ => false,
        };
        Canvas { width, height, mode, dirty }
    }

    /// Switches the policy; this alone asks for no redraw.
    pub fn set_mode(&mut self, mode: CanvasMode)
        ensures
            *final(self) == (Canvas { mode, ..*old(self) }),
    {
        self.mode = mode;
    }

    /// Asks for the canvas to be drawn in the next frame.
    pub fn redraw(&mut self)
        ensures
            *final(self) == (Canvas { dirty: true, ..*old(self) }),
    {
        self.dirty = true;
    }

    /// Whether the canvas is drawn in the coming frame.
    pub fn should_render(&self) -> (r: bool)
        ensures
            r == renders(*self),
    {
        match self.mode {
            CanvasMode::Continuous => true,
            _ => self.dirty,
        }
    }

    /// Ends a frame: returns whether the canvas was drawn in it and clears the request.
    pub fn end_frame(&mut self) -> (r: bool)
        ensures
            r == renders(*old(self)),
            *final(self) == after_frame(*old(self)),
    {
        let r = self.should_render();
        self.dirty = false;
        r
    }
}

/// A continuous canvas is drawn in every one of any number of frames.
pub proof fn lemma_continuous_renders_every_frame(c: Canvas, n: nat)
    requires
        c.mode == CanvasMode::Continuous,
    ensures
        renders_in(c, n) == n,
    decreases n,
{
    if n > 0 {
        lemma_continuous_renders_every_frame(after_frame(c), (n - 1) as nat);
    }
}

/// A canvas that is not continuous is drawn at most once over frames without a redraw:
/// once if a redraw is pending, else never.
pub proof fn lemma_non_continuous_renders(c: Canvas, n: nat)
    requires
        c.mode != CanvasMode::Continuous,
    ensures
        renders_in(c, n) == (if n > 0 && c.dirty { 1nat } else { 0nat }),
    decreases n,
{
    if n > 0 {
        lemma_non_continuous_renders(after_frame(c), (n - 1) as nat);
        assert(!after_frame(c).dirty);
    }
}

/// A new persistent canvas is drawn exactly once over any number `n >= 1` of frames
/// without a redraw, and never over zero frames.
pub proof fn lemma_persistent_renders_once(width: u32, height: u32, n: nat)
    ensures
        renders_in(Canvas { width, height, mode: CanvasMode::Persistent, dirty: true }, n) == (if n
            > 0 { 1nat } else { 0nat }),
{
    lemma_non_continuous_renders(Canvas { width, height, mode: CanvasMode::Persistent, dirty: true }, n);
}

/// An on-demand canvas with no pending request is never drawn; after one `redraw` it is
/// drawn exactly once over any `n >= 1` frames, and after that frame not again.
pub proof fn lemma_on_demand_renders_after_redraw(c: Canvas, n: nat)
    requires
        c.mode == CanvasMode::OnDemand,
        !c.dirty,
    ensures
        renders_in(c, n) == 0,
        n > 0 ==> renders_in(Canvas { dirty: true, ..c }, n) == 1,
        !after_frame(Canvas { dirty: true, ..c }).dirty,
        renders_in(after_frame(Canvas { dirty: true, ..c }), n) == 0,
{
    lemma_non_continuous_renders(c, n);
    lemma_non_continuous_renders(Canvas { dirty: true, ..c }, n);
    lemma_non_continuous_renders(after_frame(Canvas { dirty: true, ..c }), n);
}

} // verus!
