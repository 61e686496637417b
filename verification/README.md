# Decoder sessions

A library that decides everything a WebGPU decoder session does, and leaves the doing to its
caller. A session keeps key and value caches on a device and steps a decoder over them. There are
three kinds: one that keeps the caches alone, one with the attention block of a single layer, and
one with a whole stack of layers, its prefill and its logits readout.

The library parses and admits what a session is begun with, authenticates weight packs, checks
device limits, lays out buffers, bind groups and pipelines, encodes the commands of each
operation, walks each operation through its error scopes, and writes the diagnostics. All of it is
verified with Verus; contracts say exactly what each function returns, down to the words of each
message.

## Layout

| Path | What it holds |
| --- | --- |
| `src/text.rs`, `words.rs`, `ieee.rs`, `sizes.rs` | strings, little-endian words, float bit patterns, checked sizes |
| `src/json.rs`, `digest.rs` | the outside calls: `serde_json` and `blake3` |
| `src/descriptor.rs`, `operands.rs` | session descriptors and operands |
| `src/family.rs`, `geometry.rs`, `limits.rs`, `gpu.rs` | pinned shapes, what planners are asked, device limits, GPU work as plain data |
| `src/pack*.rs`, `weight_pack.rs` | weight packs |
| `src/kv*.rs`, `layer*.rs`, `stack_*.rs` | the three kinds of sessions and their reports |
| `src/sources.rs`, `diagnostics.rs`, `readback.rs` | shader listings, report parts and read-back buffers that the kinds share |
| `src/lifecycle.rs`, `failure.rs` | the course of an operation |
| `src/probe*.rs` | the probe of half-precision weights |
| `src/selection.rs` | the greedy choice of a token, and the course of the kernel that makes it |
| `src/*_laws.rs` | what holds across functions, and of every device that runs the kernels |
| `tests/` | tests |
| `app/` | the browser side: WebGPU calls, promises, and the loop that carries out an operation |

Floats are bit patterns throughout the library. Plans come from the caller's planners as plain
values; `app/host.rs` says which ones.
