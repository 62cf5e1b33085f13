//! A scrolling spectrogram widget: a ring of time rows over 2048 frequency
//! bins, fed either by polling a host sample source or by a stream of binary
//! frames, and drawn as a textured grid mesh.
//!
//! This crate holds the widget's verified core: the ring-texture bookkeeping,
//! the binary frame codec, the static mesh layout, and the widget state
//! machine. The embedding glue (DOM, WebGL calls, the socket itself, and the
//! floating-point sample-to-byte mapping) lives outside, driven by the
//! contracts stated here.

pub mod codec;
pub mod mesh;
pub mod ring;
pub mod widget;
