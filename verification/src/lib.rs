//! Host-side core of a hybrid particle/grid fluid simulation: the grid and
//! particle bookkeeping, the seeding of new particles, and the plan of compute
//! dispatches that advances the simulation by one step.

pub mod dispatch;
pub mod grid;
pub mod particle;
pub mod seeding;
pub mod resources;
pub mod stages;
pub mod pass;
pub mod simulation;
pub mod shader;
pub mod renderer;
pub mod linked_list;
