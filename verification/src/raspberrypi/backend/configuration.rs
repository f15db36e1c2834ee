//! The parts of the backend configuration that the library's decisions read.
pub use crate::raspberrypi::backend::spaceapi::configuration::SpaceAPI;
