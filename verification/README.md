# ffgpu

The logic of a video player that decodes with FFmpeg and draws with wgpu, verified with Verus.

`src/` is the library. Every function in it states what it does. Verus proves it of all but seven
small functions, which make one call each into other code, and whose contracts are believed:

- `open_unbounded`, `open_bounded`, `send_item`, `try_receive_item` and `count_items` in `channel`,
  into `crossbeam_channel`
- `is_device_local` in `decode::hw::vaapi`, into `ash`
- `replace_all` in `context::pipeline_cache`, into the standard library

With them go the types `Sender` and `Receiver`, of which Verus sees nothing, and three names for what
a channel holds, what its limit is, and that its two halves are its only handles.

| Module | What it holds |
|--------|---------------|
| `channel` | first-in, first-out channels over `crossbeam_channel` |
| `decode::packet_queue`, `decode::frame_queue` | the queues between the threads, with generations that tell what was read before a seek from what was read after it |
| `decode::clock` | the clocks of both streams |
| `decode::selector` | which decoded frames are shown after an accurate seek |
| `decode::read`, `decode::video`, `decode::audio` | the threads, step by step, and the audio sink |
| `decode::frames`, `decode::hw`, `decode::vaapi`, `decode::video_toolbox` | how decoded frames reach the GPU, with and without copies through the CPU |
| `context` | pixel formats, textures and the pipelines that draw them |
| `video` | the player |
| `playback` | a player of a single stream without sound |

`app/` is ordinary Rust around the library: it opens inputs, runs the threads, calls FFmpeg, wgpu
and the graphics interfaces, and does the arithmetic on times, which is in floating point. The
adapters for D3D11VA and VideoToolbox are built on Windows and macOS, where the crates `windows`,
and `metal`, `objc2`, `objc2-metal` and `objc2-core-video`, are needed besides those of
`Cargo.toml`.

Which hardware decoder shares its frames with which graphics interface, and where they are copied
through the CPU instead:

| Hardware decoder         | **Vulkan** | **DX12** | **Metal** | **OpenGL** |
|--------------------------|------------|----------|-----------|------------|
| **Windows (D3D11VA)**    | shared     | shared   | N/A       | CPU        |
| **macOS (VideoToolbox)** | CPU        | N/A      | shared    | CPU        |
| **Linux (VA-API DRM)**   | shared     | N/A      | N/A       | CPU        |
