use vstd::prelude::*;
use crate::config::{PaintConfig, PipelineType};
use crate::matrix::{is_identity, Matrix};
use crate::quad_bezier::QuadBezier;
use crate::record::{point_finite, InvalidGeometry, Point3};

verus! {

/// The most children one scope can hold, well below what makes the list's growth overflow.
pub const MAX_CHILDREN: usize = 0x0400_0000;

/// The ids of the children spawned in a scope so far, in a small inline vector.
#[verifier::external_body]
pub struct ChildList {
    items: smallvec::SmallVec<[u64; 8]>,
}

/// What a child list holds, in the order the ids were pushed.
pub uninterp spec fn pending_of(l: ChildList) -> Seq<u64>;

impl ChildList {
    /// Relies on `SmallVec::new`: an empty vector.
    #[verifier::external_body]
    fn new() -> (r: ChildList)
        ensures
            pending_of(r) == Seq::<u64>::empty(),
    {
        ChildList { items: smallvec::SmallVec::new() }
    }

    /// Relies on `SmallVec::push`: appends `id`; it grows by powers of two and panics only
    /// when that size overflows, which the bound on the length rules out.
    #[verifier::external_body]
    fn push(&mut self, id: u64)
        requires
            pending_of(*old(self)).len() < MAX_CHILDREN,
        ensures
            pending_of(*final(self)) == pending_of(*old(self)).push(id),
    {
        self.items.push(id)
    }

    /// Relies on `SmallVec::into_vec`: the same items in the same order.
    #[verifier::external_body]
    fn into_vec(self) -> (r: Vec<u64>)
        ensures
            r@ == pending_of(self),
    {
        self.items.into_vec()
    }
}

/// The one command that links a scope's children to their parent when the scope closes.
pub struct PushChildren {
    pub parent: u64,
    pub children: Vec<u64>,
}

/// The components a spawned shape gets besides its bundle.
#[derive(Clone, Copy, Debug, PartialEq, Eq, Structural)]
pub struct SpawnExtras {
    /// The render layers to insert, if the configuration names any.
    pub render_layers: Option<u32>,
    /// Whether to insert the marker that sends the shape to the 3d pipeline.
    pub shape_3d: bool,
}

/// The components a shape spawned under `config` gets besides its bundle: the
/// configuration's render layers, and the 3d marker under the 3d pipeline.
pub fn spawn_extras(config: &PaintConfig) -> (r: SpawnExtras)
    ensures
        r.render_layers == config.render_layers,
        r.shape_3d == (config.pipeline == PipelineType::Shape3d),
{
    let shape_3d = match config.pipeline {
        PipelineType::Shape3d => true,
        PipelineType::Shape2d => false,
    };
    SpawnExtras { render_layers: config.render_layers, shape_3d }
}

/// A quadratic Bezier to spawn as a child: the entity, its component, its local transform
/// and its extra components.
#[derive(Clone, Copy, Debug)]
pub struct ShapeSpawn {
    pub entity: u64,
    pub shape: QuadBezier,
    pub local: Matrix,
    pub extras: SpawnExtras,
}

/// A scope that spawns child shapes of one parent. Children are only collected here; they
/// are linked to the parent all at once by the command that `finish` returns.
pub struct ShapeChildBuilder {
    parent: u64,
    config: PaintConfig,
    pending: ChildList,
}

impl ShapeChildBuilder {
    pub closed spec fn parent_spec(&self) -> u64 {
        self.parent
    }

    pub closed spec fn config_spec(&self) -> PaintConfig {
        self.config
    }

    /// The children spawned so far, in order.
    pub closed spec fn children(&self) -> Seq<u64> {
        pending_of(self.pending)
    }

    /// Opens a scope under `parent`. Children are placed by their parent, so the scope's
    /// configuration is `config` without its transform.
    pub fn begin(parent: u64, config: &PaintConfig) -> (r: ShapeChildBuilder)
        ensures
            r.parent_spec() == parent,
            is_identity(r.config_spec().transform@),
            r.config_spec() == (PaintConfig { transform: r.config_spec().transform, ..*config }),
            r.children() == Seq::<u64>::empty(),
    {
        ShapeChildBuilder { parent, config: config.without_transform(), pending: ChildList::new() }
    }

    /// Records `entity`, just spawned, as a child of this scope's parent.
    pub fn spawn(&mut self, entity: u64)
        requires
            old(self).children().len() < MAX_CHILDREN,
        ensures
            final(self).children() == old(self).children().push(entity),
            final(self).parent_spec() == old(self).parent_spec(),
            final(self).config_spec() == old(self).config_spec(),
    {
        self.pending.push(entity);
    }

    /// Records the shape entity `entity` as a child and says which components it needs
    /// besides its bundle: the configuration's render layers, and the 3d marker under the 3d
    /// pipeline.
    pub fn spawn_shape(&mut self, entity: u64) -> (r: SpawnExtras)
        requires
            old(self).children().len() < MAX_CHILDREN,
        ensures
            final(self).children() == old(self).children().push(entity),
            final(self).parent_spec() == old(self).parent_spec(),
            final(self).config_spec() == old(self).config_spec(),
            r.render_layers == old(self).config_spec().render_layers,
            r.shape_3d == (old(self).config_spec().pipeline == PipelineType::Shape3d),
    {
        self.pending.push(entity);
        spawn_extras(&self.config)
    }

    /// Spawns a quadratic Bezier child styled and placed by the scope's configuration. A
    /// curve with a NaN or infinite coordinate is refused and no child is recorded.
    pub fn quad_bezier(&mut self, entity: u64, start: Point3, control: Point3, end: Point3) -> (res: Result<ShapeSpawn, InvalidGeometry>)
        requires
            old(self).children().len() < MAX_CHILDREN,
        ensures
            res.is_ok() <==> point_finite(start) && point_finite(control) && point_finite(end),
            res.is_err() ==> final(self).children() == old(self).children(),
            res.is_ok() ==> final(self).children() == old(self).children().push(entity),
            final(self).parent_spec() == old(self).parent_spec(),
            final(self).config_spec() == old(self).config_spec(),
            res matches Ok(r) ==> r.entity == entity,
            res matches Ok(r) ==> (r.local == old(self).config_spec().transform),
            res matches Ok(r) ==> (r.shape.start == start && r.shape.control == control && r.shape.end == end),
            res matches Ok(r) ==> (r.shape.color == old(self).config_spec().color),
            res matches Ok(r) ==> (r.shape.thickness == old(self).config_spec().thickness),
            res matches Ok(r) ==> (r.shape.thickness_type == old(self).config_spec().thickness_type),
            res matches Ok(r) ==> (r.shape.alignment == old(self).config_spec().alignment),
            res matches Ok(r) ==> (r.shape.cap == old(self).config_spec().cap),
            res matches Ok(r) ==> (r.extras.render_layers == old(self).config_spec().render_layers),
            res matches Ok(r) ==> (r.extras.shape_3d == (old(self).config_spec().pipeline == PipelineType::Shape3d)),
    {
        if !(start.is_finite() && control.is_finite() && end.is_finite()) {
            return Err(InvalidGeometry);
        }
        let shape = QuadBezier::new(&self.config, start, end, control);
        let extras = self.spawn_shape(entity);
        Ok(ShapeSpawn { entity, shape, local: self.config.transform, extras })
    }

    /// The parent of this scope's children.
    pub fn parent_entity(&self) -> (r: u64)
        ensures
            r == self.parent_spec(),
    {
        self.parent
    }

    pub fn config(&self) -> (r: &PaintConfig)
        ensures
            *r == self.config_spec(),
    {
        &self.config
    }

    pub fn set_config(&mut self, config: PaintConfig)
        ensures
            final(self).config_spec() == config,
            final(self).children() == old(self).children(),
            final(self).parent_spec() == old(self).parent_spec(),
    {
        self.config = config;
    }

    /// Closes the scope: the command that links every child spawned in it, in order.
    pub fn finish(self) -> (r: PushChildren)
        ensures
            r.parent == self.parent_spec(),
            r.children@ == self.children(),
    {
        PushChildren { parent: self.parent, children: self.pending.into_vec() }
    }
}

} // verus!
