//! Tasks made of two timed steps under an outer deadline: the decisions taken
//! when a race between work and a deadline resolves, a model of those races on
//! simulated time, and the report of a batch of tasks in submission order.

pub mod race;
pub mod text;
pub mod error;
pub mod steps;
pub mod model;
pub mod runner;
pub mod laws;
