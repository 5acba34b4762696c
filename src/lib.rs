pub mod bringup;
pub mod error;
pub mod freq;
pub mod ops;
pub mod pll;
pub mod regs;
pub mod sim;
pub mod stages;
pub mod wait;
