//! Control logic of a distortion effect: the closed set of distortion curves,
//! the layout of its controls, the channel layouts it accepts, and the
//! decisions taken for each sample frame.

pub mod bus;
pub mod dist;
pub mod frame;
pub mod params;
