//! Screen-capture preview pipeline: pixel normalisation, fixed-size
//! downsampling, and the decision logic of a single capture session.

pub mod error;
pub mod format;
pub mod frame;
pub mod planes;
pub mod normalize;
pub mod downsample;
pub mod session;
pub mod capture_loop;
pub mod trace;
