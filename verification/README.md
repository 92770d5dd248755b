# OpenStar Linux worker

A headless CPU and Vulkan compute worker. It registers with an OpenStar
coordinator, claims work, downloads the datasets that the work refers to, runs
Lomb-Scargle and periodic-box searches on them, and submits the results.

## Layout

- `src/` is the library. It decides; its functions are verified with Verus,
  except for the bodies in `src/outside.rs`. Floating-point numbers are carried as bit patterns: the library
  classifies and orders them, and never computes with them.
- `src/outside.rs` holds the calls into other crates that the library makes.
  Their contracts are believed, and each says what is believed.
- `src/batch_laws.rs` and `src/worker_laws.rs` state what holds of every run,
  whatever happens to it. Laws of a single module stand in that module.
- `tests/` runs the library on concrete values.
- `extras/` holds the compute shader of the Vulkan backend.
- `app/` is the program around the library: command line, files, network,
  clocks, threads, the GPU, and the arithmetic in floating point.

## How the program drives the library

Four decisions take several steps, and each is a state machine of the library:
the run of the worker (`worker`), the life of a batch (`batch`), the search for
the node's identity (`config`) and the choice of a backend (`backend`). The
library returns the next action; the program performs it and hands back what
happened.

The Vulkan backend reads its compute shader, `lomb_scargle.spv`, from the
directory of the program. `extras/lomb_scargle.comp` is its source:

```sh
glslc -O0 --target-env=vulkan1.0 extras/lomb_scargle.comp -o lomb_scargle.spv
```

Where the file is missing, the automatic choice of a backend falls back to the
CPU.
