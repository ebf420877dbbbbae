# wayvek

Draws into DMA-BUFs with Vulkan and presents them over Wayland with explicit
synchronization.

- `src/` is the library: format negotiation, the buffer slots, the DRM syncobj
  requests, the renderer's and the window's state machines. It is verified with
  Verus, but for the five trusted calls named below. It talks to no kernel, device or compositor itself: it says
  which request to make next and takes what came back.
- `app/` makes the requests, with ash, rustix and wayland-client.
- `tests/` runs the library on concrete values.

| module | what it states |
| --- | --- |
| `negotiation` | the first tiled pair that both sides share, else the first shared one |
| `swapchain` | two slots in turn; a presented slot waits for its release point |
| `drm` | timeline requests, sync-file import, points, the render node's path |
| `renderer::setup`, `renderer::device` | from the loader to the device of the render node |
| `renderer::vulkan`, `renderer::calls` | how a frame is drawn, call by call |
| `backend::wayland` | globals, window, buffers and their points |
| `backend::wayland::dmabuf` | the format table and the tranches |

The trusted calls are `fourcc::recognize` into `drm_fourcc`, `drm::device_major`
and `drm::device_minor` into `rustix`, and `bytes::native_u16` and
`backend::wayland::dmabuf::records` into `zerocopy`; each says in its doc comment
what is believed of it.
