//! Display-configuration model for a graphics driver: the in-process view of
//! paths and targets, its conversion to and from the driver's record layout,
//! the three-phase query protocol, selection of the entry to edit, and the
//! recovery routine that forces a custom timing.

pub mod status;
pub mod scaling;
pub mod rotation;
pub mod model;
pub mod select;
pub mod query;
pub mod edit;
pub mod recovery;
pub mod describe;
