pub mod cpu;
pub mod defs;
pub mod display;
pub mod error;
pub mod instruction;
pub mod keypad;
pub mod theorems;
