//! The decision logic of a flocking simulation.
//!
//! Each bird steers by separation, cohesion and alignment with its
//! neighbours, and keeps inside a bounded arena through a turning state
//! machine. This crate holds the parts of that step that are decisions,
//! each with its contract: the boundary state machine ([`turn`]), the sign
//! rules of a proximity turn and of the arena wrap ([`steer`]), the tracker
//! that applies each proximity reading once ([`proximity`]), the trail ring
//! buffer ([`trail`]), the choice of neighbours and of the inputs written per
//! tick ([`flock`]), live tuning from the keyboard ([`keypress`]) and run
//! statistics ([`meta`]). The angle and position arithmetic that feeds these
//! decisions is floating point and lives with the caller.

pub mod meta;
pub mod turn;
pub mod proximity;
pub mod steer;
pub mod trail;
pub mod flock;
pub mod keypress;
