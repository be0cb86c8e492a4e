use vstd::prelude::*;
use crate::config::PaintConfig;
use crate::flags::{pack_flags, Alignment, Cap, ThicknessType};
use crate::matrix::{mat_mul, mat_mul_of, no_nan, Matrix, ONE, ZERO};
use crate::record::{pack_flags_spec, Point3, QuadBezierData, QUAD_BEZIER_WORDS};

verus! {

/// A quadratic Bezier curve held by an entity; its placement is the entity's transform.
#[derive(Clone, Copy, Debug)]
pub struct QuadBezier {
    pub color: [u32; 4],
    pub thickness: u32,
    pub thickness_type: ThicknessType,
    pub alignment: Alignment,
    pub cap: Cap,
    /// Start of the curve, relative to the entity's transform.
    pub start: Point3,
    /// End of the curve, relative to the entity's transform.
    pub end: Point3,
    /// Control point of the curve.
    pub control: Point3,
}

impl QuadBezier {
    /// A curve styled by `config`.
    pub fn new(config: &PaintConfig, start: Point3, end: Point3, control: Point3) -> (r: Self)
        ensures
            r == (QuadBezier {
                color: config.color,
                thickness: config.thickness,
                thickness_type: config.thickness_type,
                alignment: config.alignment,
                cap: config.cap,
                start,
                end,
                control,
            }),
    {
        QuadBezier {
            color: config.color,
            thickness: config.thickness,
            thickness_type: config.thickness_type,
            alignment: config.alignment,
            cap: config.cap,
            start,
            end,
            control,
        }
    }

    /// The record of this curve on an entity whose world transform is `world`: the record's
    /// transform is `world` itself.
    pub fn into_data(&self, world: &Matrix) -> (r: QuadBezierData)
        ensures
            r == (QuadBezierData {
                transform: *world,
                color: self.color,
                thickness: self.thickness,
                flags: pack_flags_spec(self.thickness_type, self.alignment, self.cap),
                start: self.start,
                end: self.end,
                control: self.control,
            }),
    {
        let flags = pack_flags(self.thickness_type, self.alignment, self.cap);
        QuadBezierData {
            transform: *world,
            color: self.color,
            thickness: self.thickness,
            flags: flags.0,
            start: self.start,
            end: self.end,
            control: self.control,
        }
    }

    /// The record of this curve on an entity placed at `local` under a parent whose world
    /// transform is `parent_world`: the record's transform is `parent_world * local` (where
    /// that product has no NaN entry; a NaN's bits are the platform's).
    pub fn data_under(&self, parent_world: &Matrix, local: &Matrix) -> (r: QuadBezierData)
        ensures
            no_nan(r.transform@) ==> r.transform@ == mat_mul_of(parent_world@, local@),
            r.color == self.color && r.thickness == self.thickness,
            r.flags == pack_flags_spec(self.thickness_type, self.alignment, self.cap),
            r.start == self.start && r.end == self.end && r.control == self.control,
    {
        let world = mat_mul(parent_world, local);
        self.into_data(&world)
    }
}

impl Default for QuadBezier {
    /// Opaque black, thickness one in world units, flat, butt caps, all points at the origin.
    fn default() -> (r: Self)
        ensures
            r.color@ == seq![ZERO, ZERO, ZERO, ONE],
            r.thickness == ONE,
            r.thickness_type == ThicknessType::World,
            r.alignment == Alignment::Flat,
            r.cap == Cap::Butt,
            r.start == (Point3 { x: ZERO, y: ZERO, z: ZERO }),
            r.end == r.start && r.control == r.start,
    {
        let color: [u32; 4] = [ZERO, ZERO, ZERO, ONE];
        assert(color@ == seq![ZERO, ZERO, ZERO, ONE]);
        let origin = Point3 { x: ZERO, y: ZERO, z: ZERO };
        QuadBezier {
            color,
            thickness: ONE,
            thickness_type: ThicknessType::World,
            alignment: Alignment::Flat,
            cap: Cap::Butt,
            start: origin,
            end: origin,
            control: origin,
        }
    }
}

/// The type of one vertex attribute.
#[derive(Clone, Copy, Debug, PartialEq, Eq, Structural)]
pub enum AttrFormat {
    Float32,
    Float32x3,
    Float32x4,
    Uint32,
}

pub open spec fn format_size(f: AttrFormat) -> nat {
    match f {
        AttrFormat::Float32 => 4,
        AttrFormat::Float32x3 => 12,
        AttrFormat::Float32x4 => 16,
        AttrFormat::Uint32 => 4,
    }
}

/// One vertex attribute: its shader location, its type and its byte offset in the record.
#[derive(Clone, Copy, Debug, PartialEq, Eq, Structural)]
pub struct VertexAttr {
    pub location: u32,
    pub format: AttrFormat,
    pub offset: u64,
}

/// The attribute types of a quadratic Bezier record, in layout order: four columns of the
/// transform, colour, thickness, flags, start, end, control.
pub open spec fn quad_bezier_formats() -> Seq<AttrFormat> {
    seq![
        AttrFormat::Float32x4,
        AttrFormat::Float32x4,
        AttrFormat::Float32x4,
        AttrFormat::Float32x4,
        AttrFormat::Float32x4,
        AttrFormat::Float32,
        AttrFormat::Uint32,
        AttrFormat::Float32x3,
        AttrFormat::Float32x3,
        AttrFormat::Float32x3,
    ]
}

/// The bytes taken by the first `n` formats of `fs`.
pub open spec fn prefix_size(fs: Seq<AttrFormat>, n: int) -> nat
    decreases n,
{
    if n <= 0 {
        0
    } else {
        prefix_size(fs, n - 1) + format_size(fs[n - 1])
    }
}

/// The vertex layout of a quadratic Bezier record: each attribute starts where the one
/// before it ends, and together they cover the record's bytes exactly.
pub fn vertex_layout() -> (r: Vec<VertexAttr>)
    ensures
        r@.len() == quad_bezier_formats().len(),
        forall|i: int|
            0 <= i < r@.len() ==> #[trigger] r@[i] == (VertexAttr {
                location: i as u32,
                format: quad_bezier_formats()[i],
                offset: prefix_size(quad_bezier_formats(), i) as u64,
            }),
        prefix_size(quad_bezier_formats(), 10) == 4 * QUAD_BEZIER_WORDS,
{
    let formats: [AttrFormat; 10] = [
        AttrFormat::Float32x4,
        AttrFormat::Float32x4,
        AttrFormat::Float32x4,
        AttrFormat::Float32x4,
        AttrFormat::Float32x4,
        AttrFormat::Float32,
        AttrFormat::Uint32,
        AttrFormat::Float32x3,
        AttrFormat::Float32x3,
        AttrFormat::Float32x3,
    ];
    assert(formats@ == quad_bezier_formats());
    let mut r: Vec<VertexAttr> = Vec::new();
    let mut offset: u64 = 0;
    let mut i: usize = 0;
    while i < 10
        invariant
            0 <= i <= 10,
            formats@ == quad_bezier_formats(),
            r@.len() == i,
            offset == prefix_size(quad_bezier_formats(), i as int),
            offset <= 16 * i,
            forall|j: int|
                0 <= j < i ==> #[trigger] r@[j] == (VertexAttr {
                    location: j as u32,
                    format: quad_bezier_formats()[j],
                    offset: prefix_size(quad_bezier_formats(), j) as u64,
                }),
        decreases 10 - i,
    {
        let f = formats[i];
        let size: u64 = match f {
            AttrFormat::Float32 => 4,
            AttrFormat::Float32x3 => 12,
            AttrFormat::Float32x4 => 16,
            AttrFormat::Uint32 => 4,
        };
        r.push(VertexAttr { location: i as u32, format: f, offset });
        offset = offset + size;
        i += 1;
    }
    assert(prefix_size(quad_bezier_formats(), 10) == 124) by {
        reveal_with_fuel(prefix_size, 11);
    }
    r
}

} // verus!
