//! Core of the central half of a split keyboard: the status LED's one-wire
//! bit encoder and controller, the shared event queue, the battery stage of
//! the processor chain, and the fixed keymap and link configuration.

pub mod battery;
pub mod central;
pub mod chain;
pub mod channel;
pub mod constants;
pub mod event;
pub mod keymap;
pub mod led;
