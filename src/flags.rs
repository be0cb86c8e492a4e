use vstd::prelude::*;

verus! {

/// How a shape's thickness is interpreted by the shader.
#[derive(Clone, Copy, Debug, PartialEq, Eq, Structural)]
pub enum ThicknessType {
    /// Thickness in world units.
    World,
    /// Thickness in physical pixels.
    Pixels,
    /// Thickness in screen-relative units, resolved with the camera's projection at draw time.
    Screen,
}

/// Which way a flat shape faces.
#[derive(Clone, Copy, Debug, PartialEq, Eq, Structural)]
pub enum Alignment {
    /// Lies in the plane of its transform.
    Flat,
    /// Always faces the camera.
    Billboard,
}

/// How the ends of lines and curves are drawn.
#[derive(Clone, Copy, Debug, PartialEq, Eq, Structural)]
pub enum Cap {
    /// The stroke ends flat at its end point.
    Butt,
    Square,
    Round,
}

pub open spec fn thickness_code(t: ThicknessType) -> u32 {
    match t {
        ThicknessType::World => 0,
        ThicknessType::Pixels => 1,
        ThicknessType::Screen => 2,
    }
}

pub open spec fn alignment_code(a: Alignment) -> u32 {
    match a {
        Alignment::Flat => 0,
        Alignment::Billboard => 1,
    }
}

pub open spec fn cap_code(c: Cap) -> u32 {
    match c {
        Cap::Butt => 0,
        Cap::Square => 1,
        Cap::Round => 2,
    }
}

/// Mask of the thickness type: bits 0 and 1.
pub const THICKNESS_MASK: u32 = 0x3;
/// Mask of the alignment: bits 2 and 3.
pub const ALIGNMENT_MASK: u32 = 0xc;
/// Mask of the cap: bits 4 and 5.
pub const CAP_MASK: u32 = 0x30;

/// The two-bit field of `bits` that starts at bit `shift`.
pub open spec fn field(bits: u32, shift: u32) -> u32 {
    (bits >> shift) & 3
}

/// `bits` with the two-bit field at `shift` replaced by `code`.
pub open spec fn with_field(bits: u32, shift: u32, code: u32) -> u32 {
    (bits & !((3u32) << shift)) | (code << shift)
}

proof fn lemma_with_field(bits: u32, shift: u32, code: u32)
    requires
        code < 4,
        shift == 0 || shift == 2 || shift == 4,
    ensures
        field(with_field(bits, shift, code), shift) == code,
        forall|other: u32|
            (other == 0 || other == 2 || other == 4) && other != shift ==> #[trigger] field(
                with_field(bits, shift, code),
                other,
            ) == field(bits, other),
        with_field(bits, shift, code) & !0x3fu32 == bits & !0x3fu32,
{
    assert(((((bits & !((3u32) << shift)) | (code << shift)) >> shift) & 3) == code) by (bit_vector)
        requires
            code < 4,
            shift == 0 || shift == 2 || shift == 4,
    ;
    assert forall|other: u32|
        (other == 0 || other == 2 || other == 4) && other != shift implies #[trigger] field(
            with_field(bits, shift, code),
            other,
        ) == field(bits, other) by {
        assert(((((bits & !((3u32) << shift)) | (code << shift)) >> other) & 3) == ((bits >> other)
            & 3)) by (bit_vector)
            requires
                code < 4,
                shift == 0 || shift == 2 || shift == 4,
                other == 0 || other == 2 || other == 4,
                other != shift,
        ;
    }
    assert((((bits & !((3u32) << shift)) | (code << shift)) & !0x3fu32) == (bits & !0x3fu32))
        by (bit_vector)
        requires
            code < 4,
            shift == 0 || shift == 2 || shift == 4,
    ;
}

/// The bit-packed style word of a shape record: thickness type in bits 0..2, alignment in
/// bits 2..4 and cap in bits 4..6; the shader reads it with the same masks.
#[derive(Clone, Copy, Debug, PartialEq, Eq, Structural)]
pub struct Flags(pub u32);

impl Flags {
    pub open spec fn thickness_field(self) -> u32 {
        field(self.0, 0)
    }

    pub open spec fn alignment_field(self) -> u32 {
        field(self.0, 2)
    }

    pub open spec fn cap_field(self) -> u32 {
        field(self.0, 4)
    }

    /// The bits above the three style fields.
    pub open spec fn upper_bits(self) -> u32 {
        self.0 & !0x3fu32
    }

    pub fn set_thickness_type(&mut self, t: ThicknessType)
        ensures
            final(self).0 == with_field(old(self).0, 0, thickness_code(t)),
            final(self).thickness_field() == thickness_code(t),
            final(self).alignment_field() == old(self).alignment_field(),
            final(self).cap_field() == old(self).cap_field(),
            final(self).upper_bits() == old(self).upper_bits(),
    {
        let code: u32 = match t {
            ThicknessType::World => 0,
            ThicknessType::Pixels => 1,
            ThicknessType::Screen => 2,
        };
        proof {
            lemma_with_field(self.0, 0, code);
        }
        self.0 = (self.0 & !THICKNESS_MASK) | code;
        assert(with_field(old(self).0, 0, code) == (old(self).0 & !THICKNESS_MASK) | code) by {
            let b = old(self).0;
            assert((b & !((3u32) << 0u32)) | (code << 0u32) == (b & !0x3u32) | code)
                by (bit_vector);
        }
    }

    pub fn set_alignment(&mut self, a: Alignment)
        ensures
            final(self).0 == with_field(old(self).0, 2, alignment_code(a)),
            final(self).alignment_field() == alignment_code(a),
            final(self).thickness_field() == old(self).thickness_field(),
            final(self).cap_field() == old(self).cap_field(),
            final(self).upper_bits() == old(self).upper_bits(),
    {
        let code: u32 = match a {
            Alignment::Flat => 0,
            Alignment::Billboard => 1,
        };
        proof {
            lemma_with_field(self.0, 2, code);
        }
        let b = self.0;
        self.0 = (b & !ALIGNMENT_MASK) | (code << 2u32);
        assert((b & !((3u32) << 2u32)) | (code << 2u32) == (b & !0xcu32) | (code << 2u32))
            by (bit_vector);
    }

    pub fn set_cap(&mut self, c: Cap)
        ensures
            final(self).0 == with_field(old(self).0, 4, cap_code(c)),
            final(self).cap_field() == cap_code(c),
            final(self).thickness_field() == old(self).thickness_field(),
            final(self).alignment_field() == old(self).alignment_field(),
            final(self).upper_bits() == old(self).upper_bits(),
    {
        let code: u32 = match c {
            Cap::Butt => 0,
            Cap::Square => 1,
            Cap::Round => 2,
        };
        proof {
            lemma_with_field(self.0, 4, code);
        }
        let b = self.0;
        self.0 = (b & !CAP_MASK) | (code << 4u32);
        assert((b & !((3u32) << 4u32)) | (code << 4u32) == (b & !0x30u32) | (code << 4u32))
            by (bit_vector);
    }

    /// The thickness type held in bits 0..2, if those bits name one.
    pub fn thickness_type(&self) -> (r: Option<ThicknessType>)
        ensures
            r matches Some(t) <==> self.thickness_field() < 3,
            r matches Some(t) ==> thickness_code(t) == self.thickness_field(),
    {
        let v = self.0 & THICKNESS_MASK;
        assert(v == field(self.0, 0)) by {
            let b = self.0;
            assert(b & 0x3u32 == (b >> 0u32) & 3) by (bit_vector);
        }
        if v == 0 {
            Some(ThicknessType::World)
        } else if v == 1 {
            Some(ThicknessType::Pixels)
        } else if v == 2 {
            Some(ThicknessType::Screen)
        } else {
            None
        }
    }

    /// The alignment held in bits 2..4, if those bits name one.
    pub fn alignment(&self) -> (r: Option<Alignment>)
        ensures
            r matches Some(a) <==> self.alignment_field() < 2,
            r matches Some(a) ==> alignment_code(a) == self.alignment_field(),
    {
        let v = (self.0 >> 2u32) & 3;
        if v == 0 {
            Some(Alignment::Flat)
        } else if v == 1 {
            Some(Alignment::Billboard)
        } else {
            None
        }
    }

    /// The cap held in bits 4..6, if those bits name one.
    pub fn cap(&self) -> (r: Option<Cap>)
        ensures
            r matches Some(c) <==> self.cap_field() < 3,
            r matches Some(c) ==> cap_code(c) == self.cap_field(),
    {
        let v = (self.0 >> 4u32) & 3;
        if v == 0 {
            Some(Cap::Butt)
        } else if v == 1 {
            Some(Cap::Square)
        } else if v == 2 {
            Some(Cap::Round)
        } else {
            None
        }
    }
}

/// The flags word of a shape drawn with the given styles.
pub fn pack_flags(t: ThicknessType, a: Alignment, c: Cap) -> (r: Flags)
    ensures
        r.0 == thickness_code(t) | (alignment_code(a) << 2u32) | (cap_code(c) << 4u32),
        r.thickness_field() == thickness_code(t),
        r.alignment_field() == alignment_code(a),
        r.cap_field() == cap_code(c),
        r.upper_bits() == 0,
{
    let mut f = Flags(0);
    assert(0u32 & !0x3fu32 == 0) by (bit_vector);
    f.set_thickness_type(t);
    f.set_alignment(a);
    f.set_cap(c);
    let ghost (x, y, z) = (thickness_code(t), alignment_code(a), cap_code(c));
    assert(with_field(with_field(with_field(0, 0, x), 2, y), 4, z) == x | (y << 2u32) | (z << 4u32))
        by {
        assert(x < 4 && y < 4 && z < 4);
        assert(x < 4 && y < 4 && z < 4 ==> ((((((0u32 & !((3u32) << 0u32)) | (x << 0u32)) & !((3u32)
            << 2u32)) | (y << 2u32)) & !((3u32) << 4u32)) | (z << 4u32)) == x | (y << 2u32) | (z
            << 4u32)) by (bit_vector);
    }
    f
}

} // verus!
