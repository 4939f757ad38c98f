//! Patterns as separate types, each with its colours and transform; the
//! `scene::Pattern` enum holds the same information in one type.
use vstd::prelude::*;

use crate::scene::{Color, Transform};

verus! {

/// One colour everywhere; it has no transform.
#[derive(Debug, Copy, Clone)]
pub struct Solid(pub Color);

impl Solid {
    pub fn new(c: Color) -> (s: Solid)
        ensures
            s.0 == c,
    {
        Solid(c)
    }
}

/// Alternating stripes along x.
#[derive(Debug, Copy, Clone)]
pub struct Stripe {
    pub even: Color,
    pub odd: Color,
    pub transform: Transform,
}

/// Alternating rings around the y axis.
#[derive(Debug, Copy, Clone)]
pub struct Ring {
    pub even: Color,
    pub odd: Color,
    pub transform: Transform,
}

/// Alternating unit cubes.
#[derive(Debug, Copy, Clone)]
pub struct Checker {
    pub even: Color,
    pub odd: Color,
    pub transform: Transform,
}

/// A blend from `start` to `end` along each unit of x.
#[derive(Debug, Copy, Clone)]
pub struct Gradient {
    pub start: Color,
    pub end: Color,
    pub transform: Transform,
}

/// Colours each point with its own pattern-space coordinates.
#[derive(Debug, Copy, Clone)]
pub struct TestPattern {
    pub transform: Transform,
}

impl Stripe {
    pub fn new(even: Color, odd: Color, transform: Transform) -> (p: Stripe)
        ensures
            p.even == even,
            p.odd == odd,
            p.transform == transform,
    {
        Stripe { even, odd, transform }
    }

    /// The pattern's transform.
    pub fn transform(&self) -> (t: Option<&Transform>)
        ensures
            t matches Some(t) && *t == self.transform,
    {
        Some(&self.transform)
    }

    /// This pattern, as a stripe pattern.
    pub fn as_stripe(&self) -> (s: &Stripe)
        ensures
            *s == *self,
    {
        self
    }
}

impl Ring {
    pub fn new(even: Color, odd: Color, transform: Transform) -> (p: Ring)
        ensures
            p.even == even,
            p.odd == odd,
            p.transform == transform,
    {
        Ring { even, odd, transform }
    }

    /// The pattern's transform.
    pub fn transform(&self) -> (t: Option<&Transform>)
        ensures
            t matches Some(t) && *t == self.transform,
    {
        Some(&self.transform)
    }
}

impl Checker {
    pub fn new(even: Color, odd: Color, transform: Transform) -> (p: Checker)
        ensures
            p.even == even,
            p.odd == odd,
            p.transform == transform,
    {
        Checker { even, odd, transform }
    }

    /// The pattern's transform.
    pub fn transform(&self) -> (t: Option<&Transform>)
        ensures
            t matches Some(t) && *t == self.transform,
    {
        Some(&self.transform)
    }
}

impl Gradient {
    pub fn new(start: Color, end: Color, transform: Transform) -> (p: Gradient)
        ensures
            p.start == start,
            p.end == end,
            p.transform == transform,
    {
        Gradient { start, end, transform }
    }

    /// The pattern's transform.
    pub fn transform(&self) -> (t: Option<&Transform>)
        ensures
            t matches Some(t) && *t == self.transform,
    {
        Some(&self.transform)
    }
}

impl TestPattern {
    pub fn new(transform: Transform) -> (p: TestPattern)
        ensures
            p.transform == transform,
    {
        TestPattern { transform }
    }

    /// The pattern's transform.
    pub fn transform(&self) -> (t: Option<&Transform>)
        ensures
            t matches Some(t) && *t == self.transform,
    {
        Some(&self.transform)
    }
}

} // verus!
