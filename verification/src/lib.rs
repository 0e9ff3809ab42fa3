//! Clock-tree configuration for a microcontroller system-control block.
//!
//! The crate models the clock-generation hardware — oscillators, the main
//! PLL with its four fractional output dividers, the main-clock multiplexer,
//! the CPU/AHB divider, the wake clock, the clock-out multiplexer and the
//! per-peripheral function-clock selectors — and brings every node up in
//! dependency order, recording the resulting frequency of each node so that
//! peripheral drivers can ask what frequency they are actually clocked at.
//!
//! Register accesses are recorded against a register image ([`hardware::Registers`]),
//! including the order of the writes, so the bring-up sequence itself is part
//! of the verified state. A platform layer owns the memory-mapped block and
//! commits the image; it also owns the process-wide published registry slot.

#![allow(non_camel_case_types)]

pub mod bringup;
pub mod config;
pub mod hardware;
pub mod laws;
pub mod periph;
pub mod registry;
pub mod syscon;
