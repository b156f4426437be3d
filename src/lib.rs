//! Fitting of generalized linear models by iteratively reweighted least
//! squares: the response families and their link, the validation of a
//! model's dimensions, and the controller that decides every step of a fit.

pub mod error;
pub mod family;
pub mod irls;
pub mod guarantees;
pub mod model;
