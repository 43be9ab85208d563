//! A compositor core that merges several independently-clocked video streams
//! into one output stream at a fixed rate, aligning frames by presentation
//! timestamp (pts).
//!
//! The heart of the library is the per-stream synchronization engine: each
//! stream buffers decoded frames in arrival order, answers whether a frame is
//! ready for the current output window, selects the frame to draw (falling
//! back to the most recently consumed frame when the queue runs dry), and
//! evicts frames that have fallen behind the window. A scheduler drives all
//! streams once per output tick in a stable order.
//!
//! Rendering itself (uploading pixels, issuing draw calls) is a collaborator
//! outside this crate: the library only decides *which* frame each stream
//! contributes and *where* it is placed.

pub mod laws;
pub mod planes;
pub mod props;
pub mod scheduler;
pub mod sync;
pub mod video;
