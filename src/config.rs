use vstd::prelude::*;
use crate::flags::{Alignment, Cap, ThicknessType};
use crate::matrix::{identity, is_identity, Matrix, ONE, ZERO};

verus! {

/// Which render pipeline draws a shape.
#[derive(Clone, Copy, Debug, PartialEq, Eq, Structural)]
pub enum PipelineType {
    Shape2d,
    Shape3d,
}

/// The drawing state active when a shape is drawn. Colour, thickness and transform entries are
/// IEEE-754 single-precision bit patterns.
#[derive(Clone, Copy, Debug)]
pub struct PaintConfig {
    pub transform: Matrix,
    /// Linear RGBA.
    pub color: [u32; 4],
    pub thickness: u32,
    pub thickness_type: ThicknessType,
    pub alignment: Alignment,
    pub cap: Cap,
    pub hollow: bool,
    /// The canvas that draws go to, or `None` for the main framebuffer.
    pub canvas: Option<u64>,
    /// The render layers that shapes are tagged with, as a bit mask.
    pub render_layers: Option<u32>,
    pub pipeline: PipelineType,
}

/// The canonical configuration: identity transform, opaque black, thickness one in world
/// units, flat, butt caps, filled, drawn to the main framebuffer by the 2d pipeline.
pub open spec fn is_default_config(c: PaintConfig) -> bool {
    &&& is_identity(c.transform@)
    &&& c.color@ == seq![ZERO, ZERO, ZERO, ONE]
    &&& c.thickness == ONE
    &&& c.thickness_type == ThicknessType::World
    &&& c.alignment == Alignment::Flat
    &&& c.cap == Cap::Butt
    &&& !c.hollow
    &&& c.canvas.is_none()
    &&& c.render_layers.is_none()
    &&& c.pipeline == PipelineType::Shape2d
}

impl PaintConfig {
    pub fn default_config() -> (r: PaintConfig)
        ensures
            is_default_config(r),
    {
        let color: [u32; 4] = [ZERO, ZERO, ZERO, ONE];
        assert(color@ == seq![ZERO, ZERO, ZERO, ONE]);
        PaintConfig {
            transform: identity(),
            color,
            thickness: ONE,
            thickness_type: ThicknessType::World,
            alignment: Alignment::Flat,
            cap: Cap::Butt,
            hollow: false,
            canvas: None,
            render_layers: None,
            pipeline: PipelineType::Shape2d,
        }
    }

    /// A copy for shapes spawned as children: their parent already places them, so the
    /// transform is the identity; every other field is kept.
    pub fn without_transform(&self) -> (r: PaintConfig)
        ensures
            is_identity(r.transform@),
            r == (PaintConfig { transform: r.transform, ..*self }),
    {
        PaintConfig { transform: identity(), ..*self }
    }
}

/// One operation on a paint stack: `Replace` stands for any setter, which replaces the current
/// configuration.
pub ghost enum StackOp {
    Save,
    Restore,
    Replace(PaintConfig),
}

/// The current configuration and the saved ones, the last saved at the end.
pub ghost struct StackState {
    pub current: PaintConfig,
    pub saved: Seq<PaintConfig>,
}

pub open spec fn step(s: StackState, op: StackOp) -> StackState {
    match op {
        StackOp::Save => StackState { current: s.current, saved: s.saved.push(s.current) },
        StackOp::Restore => if s.saved.len() == 0 {
            s
        } else {
            StackState { current: s.saved.last(), saved: s.saved.drop_last() }
        },
        StackOp::Replace(c) => StackState { current: c, saved: s.saved },
    }
}

pub open spec fn run(s: StackState, ops: Seq<StackOp>) -> StackState
    decreases ops.len(),
{
    if ops.len() == 0 {
        s
    } else {
        run(step(s, ops[0]), ops.drop_first())
    }
}

/// Saves minus restores.
pub open spec fn depth(ops: Seq<StackOp>) -> int
    decreases ops.len(),
{
    if ops.len() == 0 {
        0
    } else {
        (match ops[0] {
            StackOp::Save => 1int,
            StackOp::Restore => -1int,
            StackOp::Replace(_) => 0int,
        }) + depth(ops.drop_first())
    }
}

/// Every restore has an earlier save that it matches, and every save is matched.
pub open spec fn balanced(ops: Seq<StackOp>) -> bool {
    &&& depth(ops) == 0
    &&& forall|i: int| 0 <= i <= ops.len() ==> #[trigger] depth(ops.take(i)) >= 0
}

proof fn lemma_run_append(s: StackState, a: Seq<StackOp>, b: Seq<StackOp>)
    ensures
        run(s, a + b) == run(run(s, a), b),
    decreases a.len(),
{
    if a.len() > 0 {
        assert((a + b).drop_first() == a.drop_first() + b);
        lemma_run_append(step(s, a[0]), a.drop_first(), b);
    } else {
        assert(a + b == b);
    }
}

/// A run whose running depth never drops below `-m` leaves the bottom `len - m` saved
/// configurations alone and changes the stack's height by its depth.
proof fn lemma_run_keeps_bottom(s: StackState, ops: Seq<StackOp>, m: int)
    requires
        0 <= m <= s.saved.len(),
        forall|i: int| 0 <= i <= ops.len() ==> #[trigger] depth(ops.take(i)) >= -m,
    ensures
        run(s, ops).saved.len() == s.saved.len() + depth(ops),
        run(s, ops).saved.take(s.saved.len() - m) == s.saved.take(s.saved.len() - m),
    decreases ops.len(),
{
    if ops.len() > 0 {
        let rest = ops.drop_first();
        let d0: int = match ops[0] {
            StackOp::Save => 1int,
            StackOp::Restore => -1int,
            StackOp::Replace(_) => 0int,
        };
        assert forall|i: int| 0 <= i <= rest.len() implies #[trigger] depth(rest.take(i)) >= -m - d0 by {
            assert(ops.take(i + 1).drop_first() == rest.take(i));
            assert(ops.take(i + 1)[0] == ops[0]);
            assert(depth(ops.take(i + 1)) >= -m);
        }
        assert(ops.take(1).drop_first() == Seq::<StackOp>::empty());
        assert(ops.take(1)[0] == ops[0]);
        assert(depth(Seq::<StackOp>::empty()) == 0);
        assert(depth(ops.take(1)) >= -m);
        let s1 = step(s, ops[0]);
        lemma_run_keeps_bottom(s1, rest, m + d0);
        let k = s.saved.len() - m;
        match ops[0] {
            StackOp::Save => {
                assert(s1.saved.take(k) =~= s.saved.take(k));
            },
            StackOp::Restore => {
                assert(s1.saved.take(k) =~= s.saved.take(k));
            },
            StackOp::Replace(_) => {},
        }
    }
}

/// Saving, then any balanced sequence of saves, restores and setters, then restoring, gives
/// back the configuration and saved stack that were there before.
pub proof fn lemma_save_restore_round_trip(s: StackState, ops: Seq<StackOp>)
    requires
        balanced(ops),
    ensures
        run(s, seq![StackOp::Save] + ops + seq![StackOp::Restore]) == s,
{
    let s1 = step(s, StackOp::Save);
    lemma_run_append(s, seq![StackOp::Save] + ops, seq![StackOp::Restore]);
    lemma_run_append(s, seq![StackOp::Save], ops);
    assert(run(s, seq![StackOp::Save]) == s1) by {
        assert(seq![StackOp::Save].drop_first() == Seq::<StackOp>::empty());
        assert(run(s1, Seq::<StackOp>::empty()) == s1);
    }
    lemma_run_keeps_bottom(s1, ops, 0);
    let s2 = run(s1, ops);
    assert(s2.saved == s1.saved) by {
        assert(s2.saved.take(s1.saved.len() as int) == s2.saved);
        assert(s1.saved.take(s1.saved.len() as int) == s1.saved);
    }
    assert(run(s2, seq![StackOp::Restore]) == step(s2, StackOp::Restore)) by {
        assert(seq![StackOp::Restore].drop_first() == Seq::<StackOp>::empty());
        assert(run(step(s2, StackOp::Restore), Seq::<StackOp>::empty()) == step(s2, StackOp::Restore));
    }
    assert(s.saved.push(s.current).drop_last() == s.saved);
}

} // verus!
