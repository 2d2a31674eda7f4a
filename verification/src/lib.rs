//! An interpreter core for CHIP-8 and SUPER-CHIP programs.
//!
//! The crate holds the machine itself: memory, registers, call stack, timers,
//! framebuffer and key state, together with the instruction decoder and the
//! behaviour of every instruction. Windowing, sound output, keyboard mapping
//! and file access belong to the program that drives the machine: it loads a
//! program, steps the machine a number of times per frame, ticks the timers
//! once per frame, and reads the framebuffer.

pub mod config;
pub mod cpu;
pub mod display;
pub mod font;
pub mod laws;
pub mod opcode;
pub mod outcome;
mod rng;
pub mod state;

pub use config::{ticks_per_frame, Chip8Variant, DisplayMode, Quirks};
pub use cpu::Cpu;
pub use display::{FrameBuffer, Screen, Sprite, SCREEN_HEIGHT, SCREEN_WIDTH};
pub use opcode::Opcode;
pub use outcome::{AudioCommand, Fault, Reason, StepEvent};
