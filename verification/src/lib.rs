//! Framebuffer compositor for a small memory-mapped display controller.
//!
//! The library composites two fixed-format pixel layers (a full-screen
//! primary surface and a small overlay sprite) held in external RAM. It
//! provides the drawing primitives that write into those buffers (solid
//! fills, transformed image blits, bitmap text), the colour conversion
//! between the 5-6-5 source packing and the 8-8-8-8 buffer format, the
//! timing-controller register computation, and the double-buffer and
//! overlay-position bookkeeping with its two-phase (stage, then commit at
//! vertical blank) shadow-register protocol. Register writes themselves,
//! bus traffic and panel bring-up live outside the library.

pub mod color;
pub mod fb;
pub mod transform;
pub mod blit;
pub mod text;
pub mod timing;
pub mod ltdc;
pub mod panel;
pub mod input;
