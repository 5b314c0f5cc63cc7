//! Sets the display backlight brightness through the login session manager.
//!
//! The library decides everything that the command does: it reads the
//! brightness argument, fixes the one remote call to make, and turns the
//! call's outcome into a result and an exit status. Opening the bus and
//! making the call are left to the program around it.

pub mod brightness;
pub mod errors;
pub mod parse;
