//! A periodic-timer LED blinker modelled as a verified protocol: the
//! register-level state of a GPIO port, a 16-bit periodic timer and an
//! interrupt controller, the one-shot hand-off of the peripheral handle into
//! a cell shared with the interrupt handler, and the handler itself.
pub mod bits;
pub mod timer;
pub mod gpio;
pub mod critical;
pub mod cell;
pub mod board;
