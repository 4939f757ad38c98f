# ray_tracer

A ray tracer in the style of *The Ray Tracer Challenge*, split in two.

* `src/` is the library, verified with Verus. It holds everything that does
  not compute with floating point: the canvas and its plain-text PPM
  encoding (header, pixel text, 70-column line breaking), decimal rendering,
  the reading of `color(...)`, `point(...)`, `vector(...)`, `tuple(...)` and
  `π/4`-style text, the container bookkeeping that decides the refractive
  media on both sides of a hit, and the scene description (materials and
  their builder, patterns, transforms, shapes). Numbers of the scene
  description are carried as the bit patterns of the doubles the renderer
  uses; the library never computes with them.
* `app/` is the renderer: tuples, colours, matrices, rays, intersections,
  shading, the world and the camera, all floating point, plus the example
  scenes and `main`, which writes PPM files.
* `tests/` exercises the library.
