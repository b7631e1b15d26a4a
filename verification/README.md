# chromaticity

The chromaticity-diagram window of a spectrum viewer, split in two:

- `src/` is a Verus-verified library holding the parts that work on
  integers, enums and sequences:
  - `strip`: the vertex order and the index list of the triangle strip that
    fills the diagram, with proofs that every index names a stored vertex,
    that every vertex is reached and that each step of the strip goes one
    ring inwards;
  - `buffer_layout`: byte lengths, element counts and attribute pointers of
    the vertex and index buffers;
  - `program_build`: the order in which a shader program is built and how a
    failure ends the build;
  - `color_choice` and `selection`: the observers and RGB spaces offered,
    their names and spectral locus ranges (from `colorimetry`), and how the
    menus keep the window and the diagram in step;
  - `vertex_cache`: the per-selection vertex cache, computing each entry once;
  - `paint_plan`: the hue lines and the draw calls of a frame.
- `app/` is ordinary Rust: the egui window, the OpenGL calls through glow,
  and the floating point color science done by `colorimetry` and `nalgebra`.
