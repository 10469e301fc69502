//! A typestate builder for protocol command frames.
//!
//! A frame is assembled in a fixed order: first its transport type, then the
//! buffer (channel) it travels on, and last its feature payload together with
//! a sequence number. Each construction stage is a distinct type that only
//! offers the operations legal at that point, so an out-of-order chain does
//! not type-check. The buffer may be given directly as a codec buffer id, or
//! symbolically as a send or receive role that a fixed table translates to
//! its raw wire id.

pub mod buffers;
pub mod builder;
pub mod frame;

pub use buffers::ReceiveBufferId;
pub use buffers::SendBufferId;
pub use builder::Frame;
pub use builder::FrameState;
pub use frame::FrameData;
pub use frame::FrameType;
