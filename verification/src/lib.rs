//! Frame-extraction library: interval-based sampling of decoded video
//! frames, pixel-buffer normalisation, parallel PNG encoding, write
//! aggregation, and the coordination rules that join the video and audio
//! tasks of one extraction job.

pub mod frame;
pub mod job;
pub mod naming;
pub mod pipeline;
pub mod sampler;
pub mod writer;
