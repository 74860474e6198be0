# ddlm

The verified core of a framebuffer login greeter for greetd.

- `src/buffer.rs`: a four-bytes-per-pixel view onto a frame buffer, narrowed
  to sub-rectangles by `subdimensions` and `offset`, with `put` and `memset`.
- `src/color.rs`: packing channels into ARGB8888 and the bytes of a pixel.
- `src/layout.rs`: where the login box, its fields and the welcome line go.
- `src/greeter.rs`: the login prompt's editing rules, key by key.
- `src/login.rs`: the decisions of a login conversation with greetd.
- `app/`: the program around it: the framebuffer device, the terminal, the
  greetd socket, colours and text drawing.
