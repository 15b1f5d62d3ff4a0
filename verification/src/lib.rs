//! Retainable decoded-frame storage for zero-copy pipelines.
//!
//! [`FrameLease`] is the ownership-carrying counterpart to [`Frame`]. A decoder
//! hands a lease downstream when the decoded storage must remain alive beyond
//! the decoder callback. Cloning a lease is cheap: it retains the underlying
//! CPU arena, heap frame, or hardware surface rather than copying decoded media
//! bytes.
//!
//! # Lifetime contract
//!
//! The storage referenced by a lease is immutable and remains valid until the
//! last clone of that lease is dropped. Producers may recycle pooled storage
//! only after all decoder-internal references and all consumer leases have been
//! released. Hardware consumers that submit asynchronous GPU work must retain
//! the lease until that work no longer reads the surface; dropping the Rust
//! handle is the consumer's declaration that the storage may be recycled.
//!
//! CPU arena frames and opaque hardware surfaces deliberately share this same
//! contract. Consumers that cannot operate on the native representation may
//! call [`FrameLease::materialize`] or [`FrameLease::into_frame`] to obtain the
//! heap-backed [`Frame`], paying a copy only at that explicit compatibility
//! boundary.
//!
//! Every contract speaks of the mathematical value behind a type, which its
//! view (`@`) gives. What holds across several functions is in [`laws`].

pub mod arena;
pub mod error;
pub mod frame;
pub mod hardware;
pub mod laws;
pub mod lease;
pub mod pixel;
pub mod text;

pub use error::Error;
pub use frame::{AudioFrame, Frame, VideoFrame, VideoPlane};
pub use hardware::{AnyRef, HardwareVideoFrame, HardwareVideoFrameStorage};
pub use lease::FrameLease;
pub use pixel::PixelFormat;
