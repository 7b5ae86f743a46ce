//! Multi-touch input normalisation: slot tracking, calibration and
//! rotation-aware mapping of touch positions into screen space.

pub mod geometry;
pub mod protocol;
pub mod tracker;
pub mod pointer;
pub mod window;
