pub mod control;
pub mod coordinator;
pub mod errors;
pub mod planner;
pub mod robot;
pub mod scalar;
pub mod simulation;
