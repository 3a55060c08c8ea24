pub mod error;
pub mod model;
pub mod token;
pub mod laws;
