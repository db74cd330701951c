# pmx_util

A reader for PMX 2.0/2.1 models (the format of MikuMikuDance), verified with
Verus.

- `src/bytes.rs`: little-endian numbers.
- `src/binary_reader.rs`: a cursor over the bytes of a file; numbers, vectors,
  indices of 1, 2 or 4 bytes, and length-prefixed texts in UTF-8 or UTF-16LE.
- `src/format.rs`: the layout of a file as predicates over its bytes.
- `src/pmx_loader.rs`: the loader, which reads header, model information,
  vertices, faces, textures, materials, bones and morphs, in this order and
  each once.
  Every reader is proved to give back exactly what the bytes hold, and to
  refuse, leaving the loader as it was, exactly where the bytes are no such
  section.
- `src/laws.rs`: properties that hold across the readers.
- `src/draw_plan.rs`: how a viewer splits the triangles among the materials.
- `app/`: a glium viewer that loads a model file and draws it.

Single-precision numbers are held as their bit patterns (`u32`); use
`f32::from_bits` to get the numbers.
