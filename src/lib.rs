//! Soil-type calibration classes of a capacitance moisture probe: their
//! names, how a name given by a user resolves to one of them, and the
//! quadratic that each class uses.

pub mod calibration;
pub mod model;
pub mod soil;

pub use calibration::QuadraticCoeffs;
pub use model::SoilTypeModel;
pub use soil::SoilType;
