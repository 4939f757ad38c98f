//! Verified core of a small ray tracer: the canvas and its PPM encoding,
//! decimal rendering of numbers, the text forms of colours, tuples and
//! quotients, the refraction bookkeeping of intersections, and the scene
//! description (materials, patterns, transforms, shapes).
pub mod call_text;
pub mod canvas;
pub mod parameters;
pub mod patterns;
pub mod ppm;
pub mod quotient;
pub mod refraction;
pub mod scene;
pub mod shapes;
pub mod text;
