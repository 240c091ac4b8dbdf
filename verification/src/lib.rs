//! An emulator core for a PIC16-family 8-bit microcontroller.
//!
//! The core executes 14-bit instructions over two banks of file registers
//! and an eight-level return-address stack, counts instruction cycles and
//! reports every change of state as a text command for a debugger
//! front-end. [`model`] says what the core does, on mathematical values;
//! [`cpu`] is the core itself, verified against the model; [`theorems`]
//! holds what follows for every state.

pub mod alu;
pub mod bits;
pub mod clock;
pub mod command;
pub mod cpu;
pub mod data_bus;
pub mod instruction;
pub mod model;
pub mod parser;
pub mod rom_bus;
pub mod stack;
pub mod text;
pub mod theorems;
