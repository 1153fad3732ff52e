# lantir

The decision-making core of the lantir Vulkan renderer, verified with Verus.

`src/` holds what the renderer computes and decides, each function with a contract:

- `barriers`, `vk_flags`: access types, image layouts and the pipeline barriers they
  translate to.
- `frame_graph`: the commands of one frame (layout transitions, passes, copies) of the
  world renderer and of the forward-shaded viewer, the render targets, and the
  readback of a frame.
- `frames`: frames in flight and the deferred release of resources.
- `resources`: the bookkeeping of the shared GPU buffers, handle tables, meshes and
  acceleration-structure instances.
- `sbt`: the layout and contents of ray-tracing shader binding tables.
- `passes`: pipeline options, blending, draw order and indirect draws of the PBR passes.
- `cmgen`, `cmgen_files`, `image`, `brdf`: environment-map files, the prefiltered
  atlas, and the integer part of the BRDF lookup table.
- `gltf_scene`: the node hierarchy of a glTF scene as the renderer lays it out, where
  its embedded images lie, and the primitives a forward-shaded viewer draws.
- `device`, `config`: device selection, extents, engine settings, plugins and systems.

`app/` is the runtime around it: Vulkan queries and `ash` conversions, file I/O, and
the floating-point work (BRDF integration, glTF transforms, vertex data and image
decoding).
`tests/` exercises the library on concrete values.
