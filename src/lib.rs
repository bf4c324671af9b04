//! A generational genetic training loop for small feed-forward controllers:
//! the growth curve that sizes the next generation, the population manager
//! that judges and repopulates, the step scheduler that turns wall-clock time
//! into simulation steps, and the topology rules of a controller network.

pub mod generation;
pub mod growth;
pub mod pool;
mod random;
pub mod schedule;
pub mod sim;
pub mod topology;
