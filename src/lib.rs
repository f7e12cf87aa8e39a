//! Bring-up logic for an LPC176x/5x microcontroller: the PLL0 search and
//! clock-tree register sequences, the CPU frequency readback, the calendar
//! model of the real-time clock, the watchdog sequences and the startup order.
pub mod boot;
pub mod clock;
pub mod rtc;
pub mod watchdog;
