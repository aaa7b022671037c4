# candle_d3d12

The planning core of a Direct3D 12 compute backend for tensor storage, written in Verus.

The library (`src/`) decides everything the backend computes before it talks to the driver:
buffer sizes, host/device transfer encodings, the dispatch of each kernel (entry point, root
constants, buffer bindings, thread groups), the descriptor layout of the shared root
signature, where each storage operation runs, and the pipeline cache. Each of these is a
verified function with a contract over a mathematical model, and the properties that span
functions (a transfer round trip, the layout description round trip, cache lookups after an
insert, thread groups that cover every element, reductions that split the elements exactly)
are proved lemmas.

- `src/` — the verified library. `utils`, `buffer`, `dispatch` size and lay out dispatches;
  `le`, `cpu_storage`, `layout` encode host data and layouts as bytes; `kernels/` builds the
  dispatch of each HLSL kernel in `source`; `storage` routes the storage operations;
  `pipelines` is the pipeline cache; `gpu`, `entry`, `reduce`, `conv`, `text` hold the
  smaller decisions.
- `app/` — the Direct3D 12 side (Windows only): the device, queue, descriptor heap and root
  signature, shader compilation, and the execution of the plans the library makes.
- `tests/` — tests of the library on concrete values.
