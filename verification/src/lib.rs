//! Board support for the STM32VLDISCOVERY: a statically allocated vector, a
//! guard for DMA buffers, and the arithmetic and flag decisions behind the
//! periodic timer, the serial interface, the user LEDs and the servo output.
mod cast_checked;

pub mod collections;
pub mod dma;
pub mod frequency;
pub mod timer;
pub mod led;
pub mod serial;
pub mod servo;
