//! The core of a framebuffer login greeter for greetd: pixel buffers and
//! their sub-rectangles, the screen layout, the keyboard editing rules of
//! the login prompt, and the decisions of a greetd login conversation.
pub mod buffer;
pub mod color;
pub mod greeter;
pub mod login;
pub mod layout;
