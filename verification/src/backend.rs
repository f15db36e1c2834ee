//! The backend of the first controller generation: it turns open and close
//! commands into lock movements and reports the door state to the SpaceAPI.
pub mod logic;
