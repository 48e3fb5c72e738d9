# Penguin Engine

A small Vulkan engine. The decisions it makes are written as a Verus-verified
library; the program around it talks to the window system and the GPU.

- `src/` — the verified library (`penguin_engine`):
  - `validation`, `messenger`, `text`: taking validation-layer messages apart
    and writing condensed error reports;
  - `device`, `swapchain`, `memory`, `cstring`: choosing the physical device,
    queue families, surface format, present mode, extent, image count, memory
    type and depth format from what the driver reports;
  - `descriptors`, `buffers`, `pipeline`, `handles`, `shaders`, `mesh`:
    buffer layout, descriptor kinds, pipeline state, vertex layout, shader
    kinds and mesh vertex lists;
  - `input`, `events`, `schedule`, `render`, `time`, `resources`, `game`,
    `config`: keyboard state, what the event loop does with each event, the
    order of plugin steps, per-frame bindings and slots, frame timing and
    named resources.
- `app/` — the program: window, event loop, legion schedules, logging and
  all Vulkan calls through ash.
- `tests/` — tests of the library on concrete values.
