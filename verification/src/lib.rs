//! Interrupt-driven core of a small bare-metal kernel.
//!
//! The library models the parts of the kernel that make decisions: the menu
//! state machine driven from the keyboard interrupt handler, the scancode
//! decoding discipline with its fallback key, the vector-table and interrupt
//! controller configuration, and the display-controller output that the
//! handlers emit. Hardware access (port reads and writes, mode switches,
//! acknowledging the controller) is performed by the surrounding program,
//! which executes the command sequences this library computes.

pub mod controller;
pub mod decoder;
pub mod display;
pub mod idt;
pub mod isr;
pub mod keys;
pub mod menu;
