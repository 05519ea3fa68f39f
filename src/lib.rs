//! Verified control layer of a hybrid fuel-cell / battery power source:
//! the charge-mode hysteresis selector, the digital actuator and hardware
//! interface abstractions, and the per-tick decisions of the simulation.
pub mod hal;
pub mod mode;
pub mod schedule;
