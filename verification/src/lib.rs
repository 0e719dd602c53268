//! Board logic for the Blackbox board (STM32H743XI): the named controls, the
//! LED and button banks, the display's double buffer, the touch controller's
//! protocol, the codec bring-up, the clock tree, the MPU layout and the SDRAM
//! checks, each with its contract.

pub mod buttons;
pub mod knobs;
pub mod leds;
pub mod display;
pub mod touch;
pub mod audio;
pub mod sdram;
pub mod clock;
pub mod cpu;
