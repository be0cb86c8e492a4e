use vstd::prelude::*;
use crate::config::{step, PaintConfig, StackOp, StackState, is_default_config, PipelineType};
use crate::flags::{Alignment, Cap, ThicknessType};
use crate::matrix::{no_nan, is_rotation_z, is_scale, is_translation, mat_mul, mat_mul_of, rotation_z, scale, translation, Matrix};
use crate::record::{pack_flags_spec, point_finite, InvalidGeometry, Point3, QuadBezierData};

verus! {

/// `restore` was called with no saved configuration.
#[derive(Clone, Copy, Debug, PartialEq, Eq, Structural)]
pub struct StackUnderflow;

/// A record waiting to be drawn, with the canvas it goes to (`None`: the main framebuffer).
#[derive(Clone, Copy, Debug)]
pub struct Queued {
    pub target: Option<u64>,
    pub data: QuadBezierData,
}

/// The records of `q` that go to `target`, in the order they were drawn.
pub open spec fn batch_of(q: Seq<Queued>, target: Option<u64>) -> Seq<QuadBezierData>
    decreases q.len(),
{
    if q.len() == 0 {
        Seq::empty()
    } else if q.last().target == target {
        batch_of(q.drop_last(), target).push(q.last().data)
    } else {
        batch_of(q.drop_last(), target)
    }
}

/// The records of `q` that go to `target`, in the order they were drawn.
pub fn batch(q: &Vec<Queued>, target: Option<u64>) -> (r: Vec<QuadBezierData>)
    ensures
        r@ == batch_of(q@, target),
{
    let mut r: Vec<QuadBezierData> = Vec::new();
    let mut i: usize = 0;
    while i < q.len()
        invariant
            0 <= i <= q@.len(),
            r@ == batch_of(q@.take(i as int), target),
        decreases q@.len() - i,
    {
        let e = q[i];
        assert(q@.take(i + 1).drop_last() == q@.take(i as int));
        if e.target == target {
            r.push(e.data);
        }
        i += 1;
    }
    assert(q@.take(q@.len() as int) == q@);
    r
}

/// The per-frame drawing API: one current configuration, the saved ones, and the records
/// drawn so far this frame.
pub struct ShapePainter {
    pub config: PaintConfig,
    pub saved: Vec<PaintConfig>,
    pub queue: Vec<Queued>,
}

impl ShapePainter {
    pub open spec fn stack(&self) -> StackState {
        StackState { current: self.config, saved: self.saved@ }
    }

    /// A painter with the default configuration, nothing saved and nothing drawn.
    pub fn new() -> (r: ShapePainter)
        ensures
            is_default_config(r.config),
            r.saved@.len() == 0,
            r.queue@.len() == 0,
    {
        ShapePainter { config: PaintConfig::default_config(), saved: Vec::new(), queue: Vec::new() }
    }

    /// Pushes a copy of the current configuration.
    pub fn save(&mut self)
        ensures
            final(self).stack() == step(old(self).stack(), StackOp::Save),
            final(self).queue@ == old(self).queue@,
    {
        self.saved.push(self.config);
    }

    /// Pops the last saved configuration into the current one; with nothing saved, fails
    /// and changes nothing.
    pub fn restore(&mut self) -> (r: Result<(), StackUnderflow>)
        ensures
            r.is_err() <==> old(self).saved@.len() == 0,
            final(self).stack() == step(old(self).stack(), StackOp::Restore),
            final(self).queue@ == old(self).queue@,
    {
        match self.saved.pop() {
            Some(c) => {
                self.config = c;
                Ok(())
            },
            None => Err(StackUnderflow),
        }
    }

    /// Replaces the current configuration with the default one; the saved ones stay.
    pub fn reset(&mut self)
        ensures
            is_default_config(final(self).config),
            final(self).saved@ == old(self).saved@,
            final(self).queue@ == old(self).queue@,
    {
        self.config = PaintConfig::default_config();
    }

    /// Replaces the current configuration.
    pub fn set_config(&mut self, config: PaintConfig)
        ensures
            final(self).stack() == step(old(self).stack(), StackOp::Replace(config)),
            final(self).queue@ == old(self).queue@,
    {
        self.config = config;
    }

    pub fn set_color(&mut self, color: [u32; 4])
        ensures
            final(self).config == (PaintConfig { color, ..old(self).config }),
            final(self).saved@ == old(self).saved@,
            final(self).queue@ == old(self).queue@,
    {
        self.config.color = color;
    }

    pub fn set_thickness(&mut self, thickness: u32, thickness_type: ThicknessType)
        ensures
            final(self).config == (PaintConfig { thickness, thickness_type, ..old(self).config }),
            final(self).saved@ == old(self).saved@,
            final(self).queue@ == old(self).queue@,
    {
        self.config.thickness = thickness;
        self.config.thickness_type = thickness_type;
    }

    pub fn set_style(&mut self, alignment: Alignment, cap: Cap, hollow: bool)
        ensures
            final(self).config == (PaintConfig { alignment, cap, hollow, ..old(self).config }),
            final(self).saved@ == old(self).saved@,
            final(self).queue@ == old(self).queue@,
    {
        self.config.alignment = alignment;
        self.config.cap = cap;
        self.config.hollow = hollow;
    }

    /// Sends later draws to the canvas `canvas`, or to the main framebuffer with `None`.
    pub fn set_canvas(&mut self, canvas: Option<u64>)
        ensures
            final(self).config == (PaintConfig { canvas, ..old(self).config }),
            final(self).saved@ == old(self).saved@,
            final(self).queue@ == old(self).queue@,
    {
        self.config.canvas = canvas;
    }

    pub fn set_pipeline(&mut self, pipeline: PipelineType, render_layers: Option<u32>)
        ensures
            final(self).config == (PaintConfig { pipeline, render_layers, ..old(self).config }),
            final(self).saved@ == old(self).saved@,
            final(self).queue@ == old(self).queue@,
    {
        self.config.pipeline = pipeline;
        self.config.render_layers = render_layers;
    }

    /// Moves later draws by `(x, y, z)` in the current local space: the transform is
    /// multiplied on the right by the translation. Where the product has a NaN entry its bits
    /// are the platform's, and only the other fields are stated.
    pub fn translate(&mut self, x: u32, y: u32, z: u32)
        ensures
            exists|t: Matrix|
                is_translation(t@, x, y, z) && (no_nan(final(self).config.transform@) ==> final(self).config.transform@
                    == mat_mul_of(old(self).config.transform@, t@)),
            final(self).config == (PaintConfig { transform: final(self).config.transform, ..old(self).config }),
            final(self).saved@ == old(self).saved@,
            final(self).queue@ == old(self).queue@,
    {
        let t = translation(x, y, z);
        self.config.transform = mat_mul(&self.config.transform, &t);
    }

    /// Scales later draws by `(x, y, z)` in the current local space.
    pub fn scale(&mut self, x: u32, y: u32, z: u32)
        ensures
            exists|t: Matrix|
                is_scale(t@, x, y, z) && (no_nan(final(self).config.transform@) ==> final(self).config.transform@
                    == mat_mul_of(old(self).config.transform@, t@)),
            final(self).config == (PaintConfig { transform: final(self).config.transform, ..old(self).config }),
            final(self).saved@ == old(self).saved@,
            final(self).queue@ == old(self).queue@,
    {
        let t = scale(x, y, z);
        self.config.transform = mat_mul(&self.config.transform, &t);
    }

    /// Rotates later draws by `angle` radians about the local z axis.
    pub fn rotate_z(&mut self, angle: u32)
        ensures
            exists|t: Matrix|
                is_rotation_z(t@) && (no_nan(final(self).config.transform@) ==> final(self).config.transform@
                    == mat_mul_of(old(self).config.transform@, t@)),
            final(self).config == (PaintConfig { transform: final(self).config.transform, ..old(self).config }),
            final(self).saved@ == old(self).saved@,
            final(self).queue@ == old(self).queue@,
    {
        let t = rotation_z(angle);
        self.config.transform = mat_mul(&self.config.transform, &t);
    }

    /// Draws a quadratic Bezier curve with the current configuration: its record joins the
    /// batch of the current target. A curve with a NaN or infinite coordinate is refused and
    /// nothing is queued.
    pub fn quad_bezier(&mut self, start: Point3, control: Point3, end: Point3) -> (r: Result<(), InvalidGeometry>)
        ensures
            r.is_ok() <==> point_finite(start) && point_finite(control) && point_finite(end),
            r.is_err() ==> final(self).queue@ == old(self).queue@,
            r.is_ok() ==> final(self).queue@ == old(self).queue@.push(
                Queued {
                    target: old(self).config.canvas,
                    data: QuadBezierData {
                        transform: old(self).config.transform,
                        color: old(self).config.color,
                        thickness: old(self).config.thickness,
                        flags: pack_flags_spec(
                            old(self).config.thickness_type,
                            old(self).config.alignment,
                            old(self).config.cap,
                        ),
                        start,
                        end,
                        control,
                    },
                },
            ),
            final(self).stack() == old(self).stack(),
    {
        if !(start.is_finite() && control.is_finite() && end.is_finite()) {
            return Err(InvalidGeometry);
        }
        let data = QuadBezierData::new(&self.config, start, control, end);
        self.queue.push(Queued { target: self.config.canvas, data });
        Ok(())
    }

    /// The records drawn this frame for `target`, in drawing order.
    pub fn batch(&self, target: Option<u64>) -> (r: Vec<QuadBezierData>)
        ensures
            r@ == batch_of(self.queue@, target),
    {
        batch(&self.queue, target)
    }

    /// Ends the frame: hands over every record drawn in it and starts the next one empty.
    pub fn take_queue(&mut self) -> (r: Vec<Queued>)
        ensures
            r@ == old(self).queue@,
            final(self).queue@.len() == 0,
            final(self).stack() == old(self).stack(),
    {
        let mut r: Vec<Queued> = Vec::new();
        std::mem::swap(&mut r, &mut self.queue);
        r
    }
}

} // verus!
