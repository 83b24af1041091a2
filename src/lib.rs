//! Frame-dispatch core for sampling a decoded video and handing each sampled
//! frame to a list of per-frame analyzers ("triggers").
pub mod error;
pub mod frame;
pub mod image;
pub mod iter;
pub mod logging;
pub mod metadata;
pub mod photon;
pub mod pipeline;
pub mod tensorflow;
pub mod tesseract;
pub mod threshold;
pub mod worker;
