//! Open-loop six-step commutation for three-phase brushless DC motors.
//!
//! The library decides; the hardware layer acts. Each half-bridge driver turns
//! a requested drive state into an ordered list of switch commands that never
//! lets both switches of a bridge conduct at once, the timing calculator turns
//! raw clock figures into PWM periods and dead-time, and the scheduler walks the
//! six-entry commutation table one step per tick.

pub mod commutation;
pub mod drive;
pub mod half_bridge;
pub mod scheduler;
pub mod step_index;
pub mod timing;
