//! The scene description: the numbers, colours, transforms, patterns and
//! materials a scene is built from.
//!
//! Numbers are held as `Real`: the bit pattern of the IEEE-754 double that
//! the renderer computes with. This module only builds, stores and copies
//! them; all arithmetic on them belongs to the renderer.
use vstd::prelude::*;

verus! {

/// A real number of the scene description, held as the bit pattern of an
/// IEEE-754 binary64 value.
#[derive(Clone, Copy, Debug)]
pub struct Real {
    pub bits: u64,
}

/// The real held by a binary64 bit pattern.
pub open spec fn binary64(bits: u64) -> Real {
    Real { bits }
}

/// The bit pattern of 0.0.
pub const ZERO_BITS: u64 = 0x0000_0000_0000_0000;

/// The bit pattern of 1.0.
pub const ONE_BITS: u64 = 0x3ff0_0000_0000_0000;

impl Real {
    /// The real with the given binary64 bit pattern.
    pub fn from_bits(bits: u64) -> (r: Real)
        ensures
            r == binary64(bits),
    {
        Real { bits }
    }

    /// The binary64 bit pattern of this real.
    pub fn to_bits(&self) -> (bits: u64)
        ensures
            bits == self.bits,
    {
        self.bits
    }

    /// 0.0
    pub fn zero() -> (r: Real)
        ensures
            r == binary64(ZERO_BITS),
    {
        Real { bits: 0x0000_0000_0000_0000 }
    }

    /// 1.0
    pub fn one() -> (r: Real)
        ensures
            r == binary64(ONE_BITS),
    {
        Real { bits: 0x3ff0_0000_0000_0000 }
    }
}

/// A colour as its red, green and blue intensities (1.0 is full intensity).
#[derive(Clone, Copy, Debug)]
pub struct Color {
    pub red: Real,
    pub green: Real,
    pub blue: Real,
}

/// White: every channel 1.0.
pub open spec fn white() -> Color {
    Color { red: binary64(ONE_BITS), green: binary64(ONE_BITS), blue: binary64(ONE_BITS) }
}

/// Black: every channel 0.0.
pub open spec fn black() -> Color {
    Color { red: binary64(ZERO_BITS), green: binary64(ZERO_BITS), blue: binary64(ZERO_BITS) }
}

impl Color {
    /// The colour with the given channels.
    pub fn new(red: Real, green: Real, blue: Real) -> (c: Color)
        ensures
            c == (Color { red, green, blue }),
    {
        Color { red, green, blue }
    }

    /// White.
    pub fn white() -> (c: Color)
        ensures
            c == white(),
    {
        Color { red: Real::one(), green: Real::one(), blue: Real::one() }
    }

    /// Black.
    pub fn black() -> (c: Color)
        ensures
            c == black(),
    {
        Color { red: Real::zero(), green: Real::zero(), blue: Real::zero() }
    }
}

/// A 4x4 affine transform, its sixteen entries in column-major order (the
/// entry in row `r` and column `c` is `m[4 * c + r]`).
#[derive(Clone, Copy, Debug)]
pub struct Transform {
    pub m: [Real; 16],
}

/// The entry in row `row` and column `col`.
pub open spec fn entry(t: Transform, row: int, col: int) -> Real {
    t.m@[4 * col + row]
}

/// The identity transform.
pub open spec fn identity_transform() -> Transform {
    Transform {
        m: [
            binary64(ONE_BITS), binary64(ZERO_BITS), binary64(ZERO_BITS), binary64(ZERO_BITS),
            binary64(ZERO_BITS), binary64(ONE_BITS), binary64(ZERO_BITS), binary64(ZERO_BITS),
            binary64(ZERO_BITS), binary64(ZERO_BITS), binary64(ONE_BITS), binary64(ZERO_BITS),
            binary64(ZERO_BITS), binary64(ZERO_BITS), binary64(ZERO_BITS), binary64(ONE_BITS),
        ],
    }
}

/// The identity transform.
pub fn identity() -> (t: Transform)
    ensures
        t == identity_transform(),
{
    let o = Real::zero();
    let i = Real::one();
    Transform { m: [i, o, o, o, o, i, o, o, o, o, i, o, o, o, o, i] }
}

/// The translation by `(x, y, z)`: the identity with `x`, `y`, `z` in the
/// last column.
pub fn translation(x: Real, y: Real, z: Real) -> (t: Transform)
    ensures
        t.m@ == seq![
            binary64(ONE_BITS), binary64(ZERO_BITS), binary64(ZERO_BITS), binary64(ZERO_BITS),
            binary64(ZERO_BITS), binary64(ONE_BITS), binary64(ZERO_BITS), binary64(ZERO_BITS),
            binary64(ZERO_BITS), binary64(ZERO_BITS), binary64(ONE_BITS), binary64(ZERO_BITS),
            x, y, z, binary64(ONE_BITS),
        ],
{
    let o = Real::zero();
    let i = Real::one();
    let t = Transform { m: [i, o, o, o, o, i, o, o, o, o, i, o, x, y, z, i] };
    assert(t.m@ =~= seq![i, o, o, o, o, i, o, o, o, o, i, o, x, y, z, i]);
    t
}

/// The scaling by `(x, y, z)`: `x`, `y`, `z` on the diagonal, then 1.
pub fn scaling(x: Real, y: Real, z: Real) -> (t: Transform)
    ensures
        t.m@ == seq![
            x, binary64(ZERO_BITS), binary64(ZERO_BITS), binary64(ZERO_BITS),
            binary64(ZERO_BITS), y, binary64(ZERO_BITS), binary64(ZERO_BITS),
            binary64(ZERO_BITS), binary64(ZERO_BITS), z, binary64(ZERO_BITS),
            binary64(ZERO_BITS), binary64(ZERO_BITS), binary64(ZERO_BITS), binary64(ONE_BITS),
        ],
{
    let o = Real::zero();
    let i = Real::one();
    let t = Transform { m: [x, o, o, o, o, y, o, o, o, o, z, o, o, o, o, i] };
    assert(t.m@ =~= seq![x, o, o, o, o, y, o, o, o, o, z, o, o, o, o, i]);
    t
}

/// The shearing that moves each coordinate in proportion to the other two:
/// row 0 is `1 xy xz 0`, row 1 is `yx 1 yz 0`, row 2 is `zx zy 1 0`.
pub fn shearing(xy: Real, xz: Real, yx: Real, yz: Real, zx: Real, zy: Real) -> (t: Transform)
    ensures
        t.m@ == seq![
            binary64(ONE_BITS), yx, zx, binary64(ZERO_BITS),
            xy, binary64(ONE_BITS), zy, binary64(ZERO_BITS),
            xz, yz, binary64(ONE_BITS), binary64(ZERO_BITS),
            binary64(ZERO_BITS), binary64(ZERO_BITS), binary64(ZERO_BITS), binary64(ONE_BITS),
        ],
{
    let o = Real::zero();
    let i = Real::one();
    let t = Transform { m: [i, yx, zx, o, xy, i, zy, o, xz, yz, i, o, o, o, o, i] };
    assert(t.m@ =~= seq![i, yx, zx, o, xy, i, zy, o, xz, yz, i, o, o, o, o, i]);
    t
}

/// How a surface is coloured, point by point.
#[derive(Clone, Copy, Debug)]
pub enum Pattern {
    /// Colours each point with its own pattern-space coordinates, to show
    /// the transforms at work.
    Test(Transform),
    /// Alternating stripes along x, one unit wide.
    Stripe { transform: Transform, even: Color, odd: Color },
    /// Alternating rings around the y axis.
    Ring { transform: Transform, even: Color, odd: Color },
    /// One colour everywhere.
    Solid(Color),
    /// A blend from `start` to `end` along each unit of x.
    Gradient { transform: Transform, start: Color, end: Color },
    /// Alternating unit cubes.
    Checker { transform: Transform, even: Color, odd: Color },
}

/// The transform of a pattern, if it has one (a solid colour has none).
pub open spec fn pattern_transform(p: Pattern) -> Option<Transform> {
    match p {
        Pattern::Test(t) => Some(t),
        Pattern::Stripe { transform, .. } => Some(transform),
        Pattern::Ring { transform, .. } => Some(transform),
        Pattern::Gradient { transform, .. } => Some(transform),
        Pattern::Checker { transform, .. } => Some(transform),
        Pattern::Solid(_) => None,
    }
}

impl Pattern {
    /// The pattern's transform, if it has one.
    pub fn transform(&self) -> (t: Option<&Transform>)
        ensures
            t matches Some(t) ==> pattern_transform(*self) == Some(*t),
            t is None ==> pattern_transform(*self) is None,
    {
        match self {
            Pattern::Test(t) => Some(t),
            Pattern::Stripe { transform, .. } => Some(transform),
            Pattern::Ring { transform, .. } => Some(transform),
            Pattern::Gradient { transform, .. } => Some(transform),
            Pattern::Checker { transform, .. } => Some(transform),
            Pattern::Solid(_) => None,
        }
    }
}

/// The test pattern with the identity transform.
pub fn default_test_pattern() -> (p: Pattern)
    ensures
        p == Pattern::Test(identity_transform()),
{
    Pattern::Test(identity())
}

/// The surface properties of an object.
#[derive(Clone, Copy, Debug)]
pub struct Material {
    pub pattern: Pattern,
    pub ambient: Real,
    pub diffuse: Real,
    pub specular: Real,
    pub shininess: Real,
    pub reflective: Real,
    pub transparency: Real,
    pub refractive: Real,
}

/// The default material: solid white, ambient 0.1, diffuse 0.9, specular
/// 0.9, shininess 200, not reflective, opaque, refractive index 1.
pub open spec fn default_material() -> Material {
    Material {
        pattern: Pattern::Solid(white()),
        ambient: binary64(0x3fb9_9999_9999_999a),
        diffuse: binary64(0x3fec_cccc_cccc_cccd),
        specular: binary64(0x3fec_cccc_cccc_cccd),
        shininess: binary64(0x4069_0000_0000_0000),
        reflective: binary64(ZERO_BITS),
        transparency: binary64(ZERO_BITS),
        refractive: binary64(ONE_BITS),
    }
}

impl Material {
    /// The default material.
    pub fn default() -> (m: Material)
        ensures
            m == default_material(),
    {
        MaterialBuilder::default().build()
    }

    /// A copy of a shared material.
    pub fn from(other: &std::rc::Rc<Material>) -> (m: Material)
        ensures
            m == **other,
    {
        Material {
            pattern: other.pattern,
            ambient: other.ambient,
            diffuse: other.diffuse,
            specular: other.specular,
            shininess: other.shininess,
            reflective: other.reflective,
            transparency: other.transparency,
            refractive: other.refractive,
        }
    }
}

/// Builds a material by changing properties of the default one.
pub struct MaterialBuilder {
    material: Material,
}

impl View for MaterialBuilder {
    type V = Material;

    /// The material the builder would build now.
    closed spec fn view(&self) -> Material {
        self.material
    }
}

impl MaterialBuilder {
    /// A builder starting from the default material.
    pub fn default() -> (b: MaterialBuilder)
        ensures
            b@ == default_material(),
    {
        MaterialBuilder {
            material: Material {
                pattern: Pattern::Solid(Color::white()),
                ambient: Real::from_bits(0x3fb9_9999_9999_999a),
                diffuse: Real::from_bits(0x3fec_cccc_cccc_cccd),
                specular: Real::from_bits(0x3fec_cccc_cccc_cccd),
                shininess: Real::from_bits(0x4069_0000_0000_0000),
                reflective: Real::zero(),
                transparency: Real::zero(),
                refractive: Real::one(),
            },
        }
    }

    /// Colours the material with the solid colour `c`.
    pub fn color(self, c: Color) -> (b: MaterialBuilder)
        ensures
            b@ == (Material { pattern: Pattern::Solid(c), ..self@ }),
    {
        let mut b = self;
        b.material.pattern = Pattern::Solid(c);
        b
    }

    /// Colours the material with the pattern `p`.
    pub fn pattern(self, p: Pattern) -> (b: MaterialBuilder)
        ensures
            b@ == (Material { pattern: p, ..self@ }),
    {
        let mut b = self;
        b.material.pattern = p;
        b
    }

    /// Sets the ambient reflection.
    pub fn ambient(self, a: Real) -> (b: MaterialBuilder)
        ensures
            b@ == (Material { ambient: a, ..self@ }),
    {
        let mut b = self;
        b.material.ambient = a;
        b
    }

    /// Sets the diffuse reflection.
    pub fn diffuse(self, d: Real) -> (b: MaterialBuilder)
        ensures
            b@ == (Material { diffuse: d, ..self@ }),
    {
        let mut b = self;
        b.material.diffuse = d;
        b
    }

    /// Sets the specular reflection.
    pub fn specular(self, sp: Real) -> (b: MaterialBuilder)
        ensures
            b@ == (Material { specular: sp, ..self@ }),
    {
        let mut b = self;
        b.material.specular = sp;
        b
    }

    /// Sets the shininess.
    pub fn shininess(self, sh: Real) -> (b: MaterialBuilder)
        ensures
            b@ == (Material { shininess: sh, ..self@ }),
    {
        let mut b = self;
        b.material.shininess = sh;
        b
    }

    /// Sets how much light the surface reflects (0: none, 1: a mirror).
    pub fn reflective(self, r: Real) -> (b: MaterialBuilder)
        ensures
            b@ == (Material { reflective: r, ..self@ }),
    {
        let mut b = self;
        b.material.reflective = r;
        b
    }

    /// Sets how much light passes through the material.
    pub fn transparency(self, t: Real) -> (b: MaterialBuilder)
        ensures
            b@ == (Material { transparency: t, ..self@ }),
    {
        let mut b = self;
        b.material.transparency = t;
        b
    }

    /// Sets the refractive index.
    pub fn refractive(self, n: Real) -> (b: MaterialBuilder)
        ensures
            b@ == (Material { refractive: n, ..self@ }),
    {
        let mut b = self;
        b.material.refractive = n;
        b
    }

    /// The material built.
    pub fn build(self) -> (m: Material)
        ensures
            m == self@,
    {
        self.material
    }
}

} // verus!
