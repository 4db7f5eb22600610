//! Image classification front end: turning decoded pictures into network
//! input, reading the label list, and choosing the label to display.
//!
//! Pixels, scores and labels are plain values here. Opening files, showing
//! windows and running the network belong to the program built on top.

pub mod array;
pub mod labels;
pub mod raster;
pub mod resample;
pub mod scores;
pub mod tensor;
pub mod viewer;
