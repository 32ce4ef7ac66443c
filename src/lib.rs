//! Iterative root finding over a generic scalar type: a shared convergence
//! loop and three step rules (Newton-Raphson, secant, Halley).
pub mod algorithm;
pub mod function;
pub mod halleys_method;
pub mod newton_raphson;
pub mod scalar;
pub mod secant_method;

pub use algorithm::{RootFindingAlgorithm, RootFindingResult, RootFindingStep};
pub use halleys_method::{HalleysMethodSolver, HalleysMethodState};
pub use newton_raphson::{NewtonRaphsonSolver, NewtonRaphsonState};
pub use secant_method::{SecantMethodSolver, SecantMethodState};
