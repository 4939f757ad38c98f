//! The shapes of a scene as described: each carries its transform and its
//! material.
use std::rc::Rc;
use vstd::prelude::*;

use crate::scene::{
    binary64, default_material, identity, identity_transform, Material, MaterialBuilder, Real,
    Transform, ONE_BITS,
};

verus! {

/// What every shape carries: where it is (its transform) and what it is
/// made of (its material, shared).
#[derive(Clone, Debug)]
pub struct ObjectProps {
    pub transform: Transform,
    pub material: Rc<Material>,
}

/// A sphere of radius 1 around the origin, before its transform.
#[derive(Debug)]
pub struct Sphere(ObjectProps);

impl View for Sphere {
    type V = ObjectProps;

    closed spec fn view(&self) -> ObjectProps {
        self.0
    }
}

impl Sphere {
    /// A sphere with the given transform and material.
    pub fn new(transform: Transform, material: Rc<Material>) -> (s: Sphere)
        ensures
            s@ == (ObjectProps { transform, material }),
    {
        Sphere(ObjectProps { transform, material })
    }

    /// The unit sphere with the default material.
    pub fn default() -> (s: Sphere)
        ensures
            s@.transform == identity_transform(),
            *s@.material == default_material(),
    {
        Sphere(ObjectProps { transform: identity(), material: Rc::new(Material::default()) })
    }

    /// The sphere's transform and material.
    pub fn props(&self) -> (p: &ObjectProps)
        ensures
            *p == self@,
    {
        &self.0
    }

    /// This shape, as a sphere.
    pub fn as_sphere(&self) -> (s: &Sphere)
        ensures
            s@ == self@,
    {
        self
    }

    /// The sphere's transform.
    pub fn transform(&self) -> (t: &Transform)
        ensures
            *t == self@.transform,
    {
        &self.0.transform
    }

    /// The sphere's material.
    pub fn material(&self) -> (m: &Rc<Material>)
        ensures
            *m == self@.material,
    {
        &self.0.material
    }
}

/// A glass sphere with the given transform and refractive index: the
/// default material made fully transparent.
pub fn custom_glass_sphere(transform: Transform, refractive: Real) -> (s: Sphere)
    ensures
        s@.transform == transform,
        *s@.material == (Material {
            transparency: binary64(ONE_BITS),
            refractive,
            ..default_material()
        }),
{
    Sphere::new(
        transform,
        Rc::new(MaterialBuilder::default().transparency(Real::one()).refractive(refractive).build()),
    )
}

/// The unit glass sphere: fully transparent, refractive index 1.5.
pub fn glass_sphere() -> (s: Sphere)
    ensures
        s@.transform == identity_transform(),
        *s@.material == (Material {
            transparency: binary64(ONE_BITS),
            refractive: binary64(0x3ff8_0000_0000_0000),
            ..default_material()
        }),
{
    custom_glass_sphere(identity(), Real::from_bits(0x3ff8_0000_0000_0000))
}

/// An infinite plane: the xz plane before its transform.
#[derive(Debug)]
pub struct Plane(ObjectProps);

impl View for Plane {
    type V = ObjectProps;

    closed spec fn view(&self) -> ObjectProps {
        self.0
    }
}

impl Plane {
    /// A plane with the given transform and material.
    pub fn new(transform: Transform, material: Rc<Material>) -> (p: Plane)
        ensures
            p@ == (ObjectProps { transform, material }),
    {
        Plane(ObjectProps { transform, material })
    }

    /// The xz plane with the default material.
    pub fn default() -> (p: Plane)
        ensures
            p@.transform == identity_transform(),
            *p@.material == default_material(),
    {
        Plane(ObjectProps { transform: identity(), material: Rc::new(Material::default()) })
    }

    /// This shape, as a plane.
    pub fn as_plane(&self) -> (p: &Plane)
        ensures
            p@ == self@,
    {
        self
    }

    /// The plane's transform.
    pub fn transform(&self) -> (t: &Transform)
        ensures
            *t == self@.transform,
    {
        &self.0.transform
    }

    /// The plane's material.
    pub fn material(&self) -> (m: &Rc<Material>)
        ensures
            *m == self@.material,
    {
        &self.0.material
    }
}

/// A shape for exercising the shared shape machinery: it has a transform
/// and a material and nothing else.
#[derive(Debug, Clone, Copy)]
pub struct TestShape {
    transform: Transform,
    material: Material,
}

impl TestShape {
    /// A test shape with the given transform and material.
    pub fn new(transform: Transform, material: Material) -> (s: TestShape)
        ensures
            s.transform() == transform,
            s.material() == material,
    {
        TestShape { transform, material }
    }

    /// The test shape with the identity transform and the default material.
    pub fn default() -> (s: TestShape)
        ensures
            s.transform() == identity_transform(),
            s.material() == default_material(),
    {
        TestShape { transform: identity(), material: Material::default() }
    }

    /// The shape's transform.
    pub closed spec fn transform(self) -> Transform {
        self.transform
    }

    /// The shape's material.
    pub closed spec fn material(self) -> Material {
        self.material
    }
}

/// An axis-aligned cube from -1 to 1 on each axis; it carries nothing yet.
#[derive(Debug, PartialEq, Eq, Structural)]
pub struct Cube {}

} // verus!
